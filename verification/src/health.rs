//! Route health tracking: consecutive failure counts per route, and the
//! notifications they trigger.

use vstd::prelude::*;
use std::collections::HashMap;

verus! {

broadcast use vstd::std_specs::hash::group_hash_axioms;

/// What a health check result asks the notifier to do.
#[derive(PartialEq, Eq, Structural)]
pub enum HealthAction {
    /// Nothing to report.
    Nothing,
    /// The route just reached the failure threshold after `count` consecutive failures.
    NotifyFailure { count: u32 },
    /// The route is healthy again after having reached the threshold.
    NotifyRecovery,
}

/// Consecutive failure counts, keyed by route id.
pub struct FailureTracker {
    failures: HashMap<i32, u32>,
}

/// The threshold as the tracker compares it (`threshold as u32`).
pub open spec fn threshold_count(threshold: i32) -> u32 {
    threshold as u32
}

/// One health check result applied to the failure counts: the new counts and
/// the action to take.
pub open spec fn spec_record(m: Map<i32, u32>, route_id: i32, healthy: bool, threshold: i32) -> (Map<i32, u32>, HealthAction) {
    if healthy {
        let action = if m.contains_key(route_id) && m[route_id] >= threshold_count(threshold) {
            HealthAction::NotifyRecovery
        } else {
            HealthAction::Nothing
        };
        (m.remove(route_id), action)
    } else {
        let count = (if m.contains_key(route_id) { m[route_id] as int } else { 0 }) + 1;
        let action = if count == threshold_count(threshold) {
            HealthAction::NotifyFailure { count: count as u32 }
        } else {
            HealthAction::Nothing
        };
        (m.insert(route_id, count as u32), action)
    }
}

/// A failure count can still be incremented.
pub open spec fn can_count(m: Map<i32, u32>, route_id: i32) -> bool {
    m.contains_key(route_id) ==> m[route_id] < u32::MAX
}

impl FailureTracker {
    pub closed spec fn view(&self) -> Map<i32, u32> {
        self.failures@
    }

    /// A tracker with no failures recorded.
    pub fn new() -> (t: Self)
        ensures
            t.view() == Map::<i32, u32>::empty(),
    {
        FailureTracker { failures: HashMap::new() }
    }

    /// Record one health check of a route: a failure increments its count
    /// (and asks for a failure notice when the count equals the threshold);
    /// a success clears the count (and asks for a recovery notice when the
    /// count had reached the threshold).
    pub fn record(&mut self, route_id: i32, healthy: bool, threshold: i32) -> (action: HealthAction)
        requires
            healthy || can_count(old(self).view(), route_id),
        ensures
            (final(self).view(), action) == spec_record(old(self).view(), route_id, healthy, threshold),
            healthy ==> (action == HealthAction::NotifyRecovery <==> old(self).view().contains_key(route_id)
                && old(self).view()[route_id] >= threshold as u32),
            healthy ==> !final(self).view().contains_key(route_id),
            !healthy ==> final(self).view().contains_key(route_id)
                && final(self).view()[route_id] == count_of(old(self).view(), route_id) + 1,
            !healthy ==> (action is NotifyFailure <==> count_of(old(self).view(), route_id) + 1 == threshold as u32),
            action matches HealthAction::NotifyFailure { count } ==> count == threshold as u32,
    {
        let limit: u32 = threshold as u32;
        if healthy {
            let prev = match self.failures.get(&route_id) {
                Some(c) => Some(*c),
                None => None,
            };
            let action = match prev {
                Some(c) => if c >= limit { HealthAction::NotifyRecovery } else { HealthAction::Nothing },
                None => HealthAction::Nothing,
            };
            self.failures.remove(&route_id);
            action
        } else {
            let prev: u32 = match self.failures.get(&route_id) {
                Some(c) => *c,
                None => 0,
            };
            let count = prev + 1;
            self.failures.insert(route_id, count);
            if count == limit {
                HealthAction::NotifyFailure { count }
            } else {
                HealthAction::Nothing
            }
        }
    }

    /// The current failure count of a route (0 when none is recorded).
    pub fn failure_count(&self, route_id: i32) -> (c: u32)
        ensures
            c == (if self.view().contains_key(route_id) { self.view()[route_id] } else { 0 }),
    {
        match self.failures.get(&route_id) {
            Some(c) => *c,
            None => 0,
        }
    }
}


/// Whether a route's status code counts as healthy: 2xx and 3xx.
pub fn is_healthy_status(code: u16) -> (r: bool)
    ensures
        r == (200 <= code && code < 400),
{
    200 <= code && code < 400
}

/// One health check of a route, as it is stored. `timestamp` is in seconds
/// since the Unix epoch.
pub struct HealthCheck {
    pub timestamp: i64,
    pub route_id: i32,
    pub target: String,
    pub healthy: bool,
    pub response_time_ms: Option<i32>,
    pub status_code: Option<i32>,
    pub error: Option<String>,
}

/// The outcome of probing a route that answered: its response time when
/// the status is 2xx or 3xx, else the status code as text.
pub fn probe_outcome(status: u16, elapsed_ms: i32) -> (r: Result<i32, String>)
    ensures
        200 <= status < 400 ==> r == Ok::<i32, String>(elapsed_ms),
        !(200 <= status < 400) ==> (r matches Err(e) && e@ == crate::text::decimal_nat(status as nat)),
{
    if is_healthy_status(status) {
        Ok(elapsed_ms)
    } else {
        Err(crate::text::decimal_u64(status as u64))
    }
}

/// How a failed request is recorded: `timeout`, `connection_failed`, or
/// the error's own text.
pub fn request_error_text(timed_out: bool, connect_failed: bool, text: String) -> (r: String)
    ensures
        r@ == if timed_out { "timeout"@ } else if connect_failed { "connection_failed"@ } else { text@ },
{
    if timed_out {
        crate::text::owned("timeout")
    } else if connect_failed {
        crate::text::owned("connection_failed")
    } else {
        text
    }
}

/// Picks the checks of one route.
pub open spec fn of_route(route_id: i32) -> spec_fn(HealthCheck) -> bool {
    |c: HealthCheck| c.route_id == route_id
}

/// What a route's status shows of its latest check: whether it is healthy
/// (a route never checked counts as healthy), when it was checked, its
/// response time and its status code.
pub struct RouteCheckStatus {
    pub healthy: bool,
    pub last_check: Option<i64>,
    pub response_time_ms: Option<i32>,
    pub last_status_code: Option<i32>,
}

/// The status of a route from the latest checks of all routes: taken from
/// the first check of that route.
pub fn route_check_status(route_id: i32, checks: &Vec<HealthCheck>) -> (r: RouteCheckStatus)
    ensures
        match crate::seqs::first_index(checks@, of_route(route_id)) {
            Some(i) => r.healthy == checks@[i].healthy && r.last_check == Some(checks@[i].timestamp)
                && r.response_time_ms == checks@[i].response_time_ms && r.last_status_code == checks@[i].status_code,
            None => r.healthy && r.last_check is None && r.response_time_ms is None && r.last_status_code is None,
        },
{
    let mut i: usize = 0;
    while i < checks.len()
        invariant
            i <= checks.len(),
            forall|k: int| 0 <= k < i ==> !(of_route(route_id))(#[trigger] checks@[k]),
        decreases checks.len() - i,
    {
        if checks[i].route_id == route_id {
            proof {
                crate::seqs::lemma_first_is(checks@, of_route(route_id), i as int);
            }
            let c = &checks[i];
            return RouteCheckStatus {
                healthy: c.healthy,
                last_check: Some(c.timestamp),
                response_time_ms: c.response_time_ms,
                last_status_code: c.status_code,
            };
        }
        i = i + 1;
    }
    proof {
        crate::seqs::lemma_first_none(checks@, of_route(route_id));
    }
    RouteCheckStatus { healthy: true, last_check: None, response_time_ms: None, last_status_code: None }
}

/// The record of a check: healthy with its response time, or failed with
/// its error, and the status code when the error is one.
pub fn health_check_record(timestamp: i64, route_id: i32, target: &str, outcome: &Result<i32, String>) -> (c: HealthCheck)
    ensures
        c.timestamp == timestamp,
        c.route_id == route_id,
        c.target@ == target@,
        c.healthy == outcome is Ok,
        c.response_time_ms == match outcome { Ok(t) => Some(*t), Err(_) => None::<i32> },
        match outcome {
            Ok(_) => c.status_code is None && c.error is None,
            Err(e) => c.error == Some(*e) && match crate::text::parsed_in_range(e@, true, -2147483648, 2147483647) {
                Some(v) => c.status_code == Some(v as i32),
                None => c.status_code is None,
            },
        },
{
    match outcome {
        Ok(t) => HealthCheck {
            timestamp,
            route_id,
            target: crate::text::owned(target),
            healthy: true,
            response_time_ms: Some(*t),
            status_code: None,
            error: None,
        },
        Err(e) => HealthCheck {
            timestamp,
            route_id,
            target: crate::text::owned(target),
            healthy: false,
            response_time_ms: None,
            status_code: crate::text::parse_i32(e.as_str()),
            error: Some(e.clone()),
        },
    }
}

/// The recorded count of a route (0 when none is recorded).
pub open spec fn count_of(m: Map<i32, u32>, route_id: i32) -> int {
    if m.contains_key(route_id) { m[route_id] as int } else { 0 }
}

/// `k` failed checks of one route in a row: the counts afterwards, and how
/// many failure notices were asked for on the way.
pub open spec fn failure_run(m: Map<i32, u32>, route_id: i32, k: nat, threshold: i32) -> (Map<i32, u32>, nat)
    decreases k,
{
    if k == 0 {
        (m, 0)
    } else {
        let before = failure_run(m, route_id, (k - 1) as nat, threshold);
        let step = spec_record(before.0, route_id, false, threshold);
        (step.0, before.1 + if step.1 is NotifyFailure { 1nat } else { 0nat })
    }
}

/// Consecutive failures add up, leave the other routes alone, and ask for a
/// failure notice exactly once: on the check at which the count reaches the
/// threshold (none if the run stops short of it or started past it).
pub proof fn lemma_failure_run(m: Map<i32, u32>, route_id: i32, k: nat, threshold: i32)
    requires
        count_of(m, route_id) + k <= u32::MAX,
    ensures
        count_of(failure_run(m, route_id, k, threshold).0, route_id) == count_of(m, route_id) + k,
        forall|x: i32| x != route_id ==> (#[trigger] failure_run(m, route_id, k, threshold).0.contains_key(x)
            == m.contains_key(x)) && (m.contains_key(x) ==> failure_run(m, route_id, k, threshold).0[x] == m[x]),
        failure_run(m, route_id, k, threshold).1 == (if count_of(m, route_id) < threshold_count(threshold)
            <= count_of(m, route_id) + k { 1nat } else { 0nat }),
    decreases k,
{
    if k > 0 {
        lemma_failure_run(m, route_id, (k - 1) as nat, threshold);
    }
}

/// An outage that was reported is also reported over: when a run of failed
/// checks asked for a failure notice, the next healthy check asks for a
/// recovery notice. A run that stopped short of the threshold is not.
pub proof fn lemma_reported_outage_recovers(m: Map<i32, u32>, route_id: i32, k: nat, threshold: i32)
    requires
        count_of(m, route_id) + k <= u32::MAX,
        count_of(m, route_id) == 0,
    ensures
        failure_run(m, route_id, k, threshold).1 >= 1
            ==> spec_record(failure_run(m, route_id, k, threshold).0, route_id, true, threshold).1 == HealthAction::NotifyRecovery,
        k < threshold_count(threshold)
            ==> spec_record(failure_run(m, route_id, k, threshold).0, route_id, true, threshold).1 == HealthAction::Nothing,
{
    lemma_failure_run(m, route_id, k, threshold);
    let after = failure_run(m, route_id, k, threshold).0;
    if k > 0 {
        assert(after.contains_key(route_id));
    }
}

/// A healthy check clears the count, so the outage that follows is counted
/// from zero: a recovered route is reported again once it fails `threshold`
/// times in a row.
pub proof fn lemma_recovery_resets(m: Map<i32, u32>, route_id: i32, k: nat, threshold: i32)
    requires
        k <= u32::MAX,
    ensures
        count_of(spec_record(m, route_id, true, threshold).0, route_id) == 0,
        failure_run(spec_record(m, route_id, true, threshold).0, route_id, k, threshold).1
            == (if 0 < threshold_count(threshold) <= k { 1nat } else { 0nat }),
{
    lemma_failure_run(spec_record(m, route_id, true, threshold).0, route_id, k, threshold);
}

} // verus!
