use service_monitor::address::ensure_protocol;
use service_monitor::address::format_server_print;
use service_monitor::alert::alert_message;
use service_monitor::alert::notify_message;
use service_monitor::cycle::alert_set;
use service_monitor::cycle::run_cycle;
use service_monitor::endpoint::default_endpoints;
use service_monitor::endpoint::parse_server_app_pair;
use service_monitor::endpoint::Endpoint;
use service_monitor::status::classify;
use service_monitor::status::format_status;
use service_monitor::status::http_probe_outcome;
use service_monitor::status::ProbeOutcome;
use service_monitor::status::Status;
use service_monitor::text::u16_to_decimal;

fn endpoint(address: &str, label: &str) -> Endpoint {
    Endpoint { address: address.to_string(), label: label.to_string() }
}

#[test]
fn classify_success_is_active() {
    assert_eq!(classify(&ProbeOutcome::Success), Status::Active);
}

#[test]
fn classify_failure_is_inactive() {
    assert_eq!(classify(&ProbeOutcome::Failure("50% loss".to_string())), Status::Inactive);
}

#[test]
fn classify_error_is_unknown() {
    assert_eq!(classify(&ProbeOutcome::Error("timeout".to_string())), Status::Unknown);
}

#[test]
fn http_success_code_gives_success() {
    assert!(matches!(http_probe_outcome(&Ok(200)), ProbeOutcome::Success));
    assert!(matches!(http_probe_outcome(&Ok(204)), ProbeOutcome::Success));
    assert!(matches!(http_probe_outcome(&Ok(299)), ProbeOutcome::Success));
}

#[test]
fn http_failure_code_gives_failure_with_code() {
    match http_probe_outcome(&Ok(404)) {
        ProbeOutcome::Failure(reason) => assert_eq!(reason, "404"),
        _ => panic!("expected Failure"),
    }
    match http_probe_outcome(&Ok(500)) {
        ProbeOutcome::Failure(reason) => assert_eq!(reason, "500"),
        _ => panic!("expected Failure"),
    }
    assert!(matches!(http_probe_outcome(&Ok(199)), ProbeOutcome::Failure(_)));
    assert!(matches!(http_probe_outcome(&Ok(300)), ProbeOutcome::Failure(_)));
}

#[test]
fn http_transport_error_gives_error_with_reason() {
    match http_probe_outcome(&Err("connection refused".to_string())) {
        ProbeOutcome::Error(reason) => assert_eq!(reason, "connection refused"),
        _ => panic!("expected Error"),
    }
}

#[test]
fn decimal_rendering_is_exact() {
    assert_eq!(u16_to_decimal(0), "0");
    assert_eq!(u16_to_decimal(7), "7");
    assert_eq!(u16_to_decimal(404), "404");
    assert_eq!(u16_to_decimal(65535), "65535");
}

#[test]
fn format_server_print_strips_http() {
    assert_eq!(format_server_print("http://a.com"), "a.com");
}

#[test]
fn format_server_print_strips_https() {
    assert_eq!(format_server_print("https://a.com"), "a.com");
}

#[test]
fn format_server_print_keeps_bare_address() {
    assert_eq!(format_server_print("a.com"), "a.com");
}

#[test]
fn format_server_print_strips_every_occurrence() {
    assert_eq!(format_server_print("http://a.comhttp://b"), "a.comb");
}

#[test]
fn ensure_protocol_prefixes_bare_address() {
    assert_eq!(ensure_protocol("a.com"), "http://a.com");
}

#[test]
fn ensure_protocol_keeps_existing_scheme() {
    assert_eq!(ensure_protocol("https://a.com"), "https://a.com");
    assert_eq!(ensure_protocol("http://a.com"), "http://a.com");
}

#[test]
fn parse_pair_with_one_comma() {
    let e = parse_server_app_pair("chat.com,Chat App").unwrap();
    assert_eq!(e.address, "chat.com");
    assert_eq!(e.label, "Chat App");
}

#[test]
fn parse_pair_without_comma_fails() {
    let err = parse_server_app_pair("badformat").unwrap_err();
    assert_eq!(err, "Invalid server-app pair format: 'badformat'. Expected 'server,app'");
}

#[test]
fn parse_pair_with_two_commas_fails() {
    let err = parse_server_app_pair("a,b,c").unwrap_err();
    assert_eq!(err, "Invalid server-app pair format: 'a,b,c'. Expected 'server,app'");
}

#[test]
fn parse_pair_allows_empty_fields() {
    let e = parse_server_app_pair(",x").unwrap();
    assert_eq!(e.address, "");
    assert_eq!(e.label, "x");
}

#[test]
fn default_endpoint_list() {
    let d = default_endpoints();
    assert_eq!(d.len(), 4);
    assert_eq!(d[0].address, "chat.com");
    assert_eq!(d[0].label, "Chat Application");
    assert_eq!(d[1].address, "192.4.5.11");
    assert_eq!(d[1].label, "Example App");
    assert_eq!(d[2].address, "https://jsonplaceholder.typicode.com/todos/1");
    assert_eq!(d[2].label, "REST Api Example");
    assert_eq!(d[3].address, "https://dns.google");
    assert_eq!(d[3].label, "Google DNS Service");
}

#[test]
fn format_status_words() {
    assert_eq!(format_status(Status::Active), "Active");
    assert_eq!(format_status(Status::Inactive), "Inactive");
    assert_eq!(format_status(Status::Unknown), "Unknown");
}

#[test]
fn cycle_with_one_healthy_endpoint() {
    let endpoints = vec![endpoint("a.com", "App")];
    let outcomes = vec![ProbeOutcome::Success];
    let stamps = vec!["2024-01-01 00:00:00".to_string()];
    let cycle = run_cycle(&endpoints, &outcomes, &stamps);
    assert_eq!(cycle.len(), 1);
    assert_eq!(cycle[0].endpoint.address, "a.com");
    assert_eq!(cycle[0].status, Status::Active);
    assert_eq!(cycle[0].timestamp, "2024-01-01 00:00:00");
    let alerts = alert_set(&cycle);
    assert!(alerts.is_empty());
    assert!(notify_message(&alerts).is_none());
}

#[test]
fn cycle_with_failure_and_error() {
    let endpoints = vec![endpoint("a.com", "A"), endpoint("b.com", "B")];
    let outcomes = vec![
        ProbeOutcome::Failure("503".to_string()),
        ProbeOutcome::Error("dns failure".to_string()),
    ];
    let stamps = vec!["t1".to_string(), "t2".to_string()];
    let cycle = run_cycle(&endpoints, &outcomes, &stamps);
    assert_eq!(cycle.len(), 2);
    assert_eq!(cycle[0].status, Status::Inactive);
    assert_eq!(cycle[1].status, Status::Unknown);
    let alerts = alert_set(&cycle);
    assert_eq!(alerts.len(), 2);
    assert_eq!(alerts[0].address, "a.com");
    assert_eq!(alerts[1].address, "b.com");
    let message = notify_message(&alerts).unwrap();
    assert_eq!(message, "Inactive servers detected:\na.com (A)\nb.com (B)");
}

#[test]
fn alert_set_keeps_cycle_order() {
    let endpoints = vec![
        endpoint("one", "1"),
        endpoint("two", "2"),
        endpoint("three", "3"),
        endpoint("four", "4"),
    ];
    let outcomes = vec![
        ProbeOutcome::Failure("x".to_string()),
        ProbeOutcome::Success,
        ProbeOutcome::Error("y".to_string()),
        ProbeOutcome::Failure("z".to_string()),
    ];
    let stamps = vec![
        "t".to_string(),
        "t".to_string(),
        "t".to_string(),
        "t".to_string(),
    ];
    let cycle = run_cycle(&endpoints, &outcomes, &stamps);
    let alerts = alert_set(&cycle);
    let addresses: Vec<&str> = alerts.iter().map(|e| e.address.as_str()).collect();
    assert_eq!(addresses, vec!["one", "three", "four"]);
}

#[test]
fn alert_message_single_line() {
    let alerts = vec![endpoint("chat.com", "Chat App")];
    assert_eq!(alert_message(&alerts), "chat.com (Chat App)");
}

#[test]
fn alert_message_joins_lines_in_order() {
    let alerts = vec![endpoint("a", "A"), endpoint("b", "B"), endpoint("c", "C")];
    assert_eq!(alert_message(&alerts), "a (A)\nb (B)\nc (C)");
}

#[test]
fn empty_alert_set_sends_nothing() {
    let alerts: Vec<Endpoint> = Vec::new();
    assert!(notify_message(&alerts).is_none());
    assert_eq!(alert_message(&alerts), "");
}

#[test]
fn empty_endpoint_list_cycle() {
    let endpoints: Vec<Endpoint> = Vec::new();
    let outcomes: Vec<ProbeOutcome> = Vec::new();
    let stamps: Vec<String> = Vec::new();
    let cycle = run_cycle(&endpoints, &outcomes, &stamps);
    assert!(cycle.is_empty());
    let alerts = alert_set(&cycle);
    assert!(alerts.is_empty());
    assert!(notify_message(&alerts).is_none());
}
