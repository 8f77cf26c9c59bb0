//! The alert message handed to the notification collaborator: one line per
//! alerting endpoint, and the decision whether to notify at all.

use vstd::prelude::*;

use crate::cycle::endpoint_views;
use crate::endpoint::Endpoint;
use crate::endpoint::EndpointView;

verus! {

/// The message line for one alerting endpoint: `<address> (<label>)`.
pub open spec fn alert_line(e: EndpointView) -> Seq<char> {
    e.address + " ("@ + e.label + ")"@
}

/// The lines for the alerting endpoints, in order, joined by newlines.
pub open spec fn alert_lines(alerts: Seq<EndpointView>) -> Seq<char>
    decreases alerts.len(),
{
    if alerts.len() == 0 {
        Seq::empty()
    } else if alerts.len() == 1 {
        alert_line(alerts[0])
    } else {
        alert_lines(alerts.drop_last()) + "\n"@ + alert_line(alerts.last())
    }
}

/// The full notification body: a fixed heading, then one line per alerting
/// endpoint.
pub open spec fn alert_body(alerts: Seq<EndpointView>) -> Seq<char> {
    "Inactive servers detected:\n"@ + alert_lines(alerts)
}

/// Formats the alert set as one line per endpoint, `<address> (<label>)`,
/// joined by newlines in alert-set order.
pub fn alert_message(alerts: &Vec<Endpoint>) -> (r: String)
    ensures
        r@ == alert_lines(endpoint_views(alerts@)),
{
    let n = alerts.len();
    let mut out = String::new();
    let mut i: usize = 0;
    proof {
        assert(endpoint_views(alerts@).take(0) =~= Seq::<EndpointView>::empty());
        assert(out@ =~= alert_lines(endpoint_views(alerts@).take(0)));
    }
    while i < n
        invariant
            i <= n,
            n == alerts@.len(),
            out@ == alert_lines(endpoint_views(alerts@).take(i as int)),
        decreases n - i,
    {
        proof {
            assert(endpoint_views(alerts@).take(i + 1).drop_last() =~= endpoint_views(
                alerts@,
            ).take(i as int));
            assert(endpoint_views(alerts@).take(i + 1).last() == alerts@[i as int]@);
        }
        if i > 0 {
            out.append("\n");
        }
        out.append(alerts[i].address.as_str());
        out.append(" (");
        out.append(alerts[i].label.as_str());
        out.append(")");
        proof {
            assert(out@ =~= alert_lines(endpoint_views(alerts@).take(i + 1)));
        }
        i += 1;
    }
    proof {
        assert(endpoint_views(alerts@).take(n as int) =~= endpoint_views(alerts@));
    }
    out
}

/// Decides the dispatch for one cycle: an empty alert set asks for no
/// notification at all, a non-empty one for exactly one notification whose
/// body lists every alerting endpoint.
pub fn notify_message(alerts: &Vec<Endpoint>) -> (r: Option<String>)
    ensures
        alerts@.len() == 0 <==> r is None,
        r matches Some(m) ==> m@ == alert_body(endpoint_views(alerts@)),
{
    if alerts.len() == 0 {
        None
    } else {
        let lines = alert_message(alerts);
        Some(String::from_str("Inactive servers detected:\n").concat(lines.as_str()))
    }
}

} // verus!
