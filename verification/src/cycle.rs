//! One monitoring cycle: probing every configured endpoint in order yields a
//! cycle result, and the entries whose status calls for an alert form the
//! alert set.

use vstd::prelude::*;
use vstd::seq_lib::*;

use crate::endpoint::Endpoint;
use crate::endpoint::EndpointView;
use crate::status::classify;
use crate::status::classify_spec;
use crate::status::ProbeOutcome;
use crate::status::Status;

verus! {

/// Mathematical model of one cycle-result entry.
pub struct CycleEntryView {
    pub endpoint: EndpointView,
    pub status: Status,
    pub timestamp: Seq<char>,
}

/// One entry of a cycle result: an endpoint, the status its probe was
/// classified to, and the timestamp text recorded when it was probed.
pub struct CycleEntry {
    pub endpoint: Endpoint,
    pub status: Status,
    pub timestamp: String,
}

impl View for CycleEntry {
    type V = CycleEntryView;

    open spec fn view(&self) -> CycleEntryView {
        CycleEntryView {
            endpoint: self.endpoint@,
            status: self.status,
            timestamp: self.timestamp@,
        }
    }
}

/// The models of a sequence of cycle entries.
pub open spec fn entry_views(entries: Seq<CycleEntry>) -> Seq<CycleEntryView> {
    entries.map_values(|e: CycleEntry| e@)
}

/// The models of a sequence of endpoints.
pub open spec fn endpoint_views(endpoints: Seq<Endpoint>) -> Seq<EndpointView> {
    endpoints.map_values(|e: Endpoint| e@)
}

/// True when a status must raise an alert: the endpoint is not known to be
/// healthy.
pub open spec fn alerting(status: Status) -> bool {
    status == Status::Inactive || status == Status::Unknown
}

/// The endpoints of the alerting entries of a cycle result, in cycle order.
pub open spec fn alert_views(entries: Seq<CycleEntryView>) -> Seq<EndpointView>
    decreases entries.len(),
{
    if entries.len() == 0 {
        Seq::empty()
    } else if alerting(entries.last().status) {
        alert_views(entries.drop_last()).push(entries.last().endpoint)
    } else {
        alert_views(entries.drop_last())
    }
}

/// The alert set is exactly the filter of the cycle result down to its
/// alerting entries, projected to their endpoints — so it preserves the
/// relative order of the cycle result.
pub proof fn lemma_alert_set_is_filter(entries: Seq<CycleEntryView>)
    ensures
        alert_views(entries) == entries.filter(|e: CycleEntryView| alerting(e.status)).map_values(
            |e: CycleEntryView| e.endpoint,
        ),
    decreases entries.len(),
{
    reveal(Seq::filter);
    if entries.len() == 0 {
        assert(alert_views(entries) =~= entries.filter(
            |e: CycleEntryView| alerting(e.status),
        ).map_values(|e: CycleEntryView| e.endpoint));
    } else {
        let prefix = entries.drop_last();
        lemma_alert_set_is_filter(prefix);
        if alerting(entries.last().status) {
            assert(entries.filter(|e: CycleEntryView| alerting(e.status)).map_values(
                |e: CycleEntryView| e.endpoint,
            ) =~= prefix.filter(|e: CycleEntryView| alerting(e.status)).map_values(
                |e: CycleEntryView| e.endpoint,
            ).push(entries.last().endpoint));
        } else {
            assert(entries.filter(|e: CycleEntryView| alerting(e.status)) == prefix.filter(
                |e: CycleEntryView| alerting(e.status),
            ));
        }
    }
}

/// Builds the result of one cycle from the configured endpoints, the probe
/// outcome obtained for each, and the timestamp text recorded for each:
/// one entry per endpoint, in configuration order, with the outcome
/// classified to a status.
pub fn run_cycle(
    endpoints: &Vec<Endpoint>,
    outcomes: &Vec<ProbeOutcome>,
    timestamps: &Vec<String>,
) -> (r: Vec<CycleEntry>)
    requires
        outcomes@.len() == endpoints@.len(),
        timestamps@.len() == endpoints@.len(),
    ensures
        r@.len() == endpoints@.len(),
        forall|i: int| 0 <= i < r@.len() ==> #[trigger] r@[i]@ == (CycleEntryView {
            endpoint: endpoints@[i]@,
            status: classify_spec(outcomes@[i]),
            timestamp: timestamps@[i]@,
        }),
{
    let n = endpoints.len();
    let mut r: Vec<CycleEntry> = Vec::new();
    let mut i: usize = 0;
    while i < n
        invariant
            i <= n,
            n == endpoints@.len(),
            outcomes@.len() == n,
            timestamps@.len() == n,
            r@.len() == i,
            forall|j: int| 0 <= j < i ==> #[trigger] r@[j]@ == (CycleEntryView {
                endpoint: endpoints@[j]@,
                status: classify_spec(outcomes@[j]),
                timestamp: timestamps@[j]@,
            }),
        decreases n - i,
    {
        let entry = CycleEntry {
            endpoint: endpoints[i].clone(),
            status: classify(&outcomes[i]),
            timestamp: timestamps[i].clone(),
        };
        r.push(entry);
        i += 1;
    }
    r
}

/// Collects the alert set of a cycle result: the endpoints of the entries
/// whose status is `Inactive` or `Unknown`, in cycle order.
pub fn alert_set(cycle: &Vec<CycleEntry>) -> (r: Vec<Endpoint>)
    ensures
        endpoint_views(r@) == alert_views(entry_views(cycle@)),
{
    let n = cycle.len();
    let mut r: Vec<Endpoint> = Vec::new();
    let mut i: usize = 0;
    proof {
        assert(entry_views(cycle@.take(0)) =~= Seq::<CycleEntryView>::empty());
        assert(endpoint_views(r@) =~= alert_views(entry_views(cycle@.take(0))));
    }
    while i < n
        invariant
            i <= n,
            n == cycle@.len(),
            endpoint_views(r@) == alert_views(entry_views(cycle@.take(i as int))),
        decreases n - i,
    {
        proof {
            assert(entry_views(cycle@.take(i + 1)).drop_last() =~= entry_views(
                cycle@.take(i as int),
            ));
            assert(entry_views(cycle@.take(i + 1)).last() == cycle@[i as int]@);
        }
        let status = cycle[i].status;
        if status == Status::Inactive || status == Status::Unknown {
            r.push(cycle[i].endpoint.clone());
            proof {
                assert(endpoint_views(r@) =~= alert_views(entry_views(cycle@.take(i + 1))));
            }
        } else {
            proof {
                assert(endpoint_views(r@) == alert_views(entry_views(cycle@.take(i + 1))));
            }
        }
        i += 1;
    }
    proof {
        assert(cycle@.take(n as int) =~= cycle@);
    }
    r
}

} // verus!
