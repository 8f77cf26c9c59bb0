//! Verified core of a periodic endpoint health monitor.
//!
//! The library holds the decision logic of the monitor: classifying probe
//! outcomes into statuses, assembling the result of one monitoring cycle,
//! computing the set of endpoints that must raise an alert, formatting the
//! alert message, normalizing addresses, and parsing endpoint descriptions.
//! The surrounding process (network probes, terminal rendering, desktop
//! notifications, the timer loop) feeds this library plain values and acts
//! on what it returns.

pub mod address;
pub mod alert;
pub mod cycle;
pub mod endpoint;
pub mod status;
pub mod text;

pub use address::ensure_protocol;
pub use address::format_server_print;
pub use endpoint::default_endpoints;
pub use endpoint::parse_server_app_pair;
pub use endpoint::Endpoint;
pub use status::classify;
pub use status::ProbeOutcome;
pub use status::Status;
