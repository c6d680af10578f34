//! Per-connection decisions of the orchestrator: which connections are
//! processed, the domain a flow is attributed to, and the throttles on failure
//! logging and bandwidth events.

use vstd::prelude::*;
use std::collections::HashMap;

verus! {

broadcast use vstd::std_specs::hash::group_hash_axioms;

/// Milliseconds between two logged connection failures.
pub const FAILURE_LOG_INTERVAL_MS: u64 = 60_000;

/// Milliseconds between two bandwidth events of one app.
pub const BANDWIDTH_PUBLISH_INTERVAL_MS: u64 = 1_000;

/// Time from `at` to `now` on a monotonic clock (never negative).
pub open spec fn since(at: u64, now: u64) -> int {
    if now >= at {
        now - at
    } else {
        0
    }
}

/// Connections of process 0 (the system idle process) are not processed.
pub fn should_process(pid: u32) -> (r: bool)
    ensures
        r == (pid != 0),
{
    pid != 0
}

/// Domain a connection is attributed to: the one the capture saw, else the one
/// the resolver cache knows for the destination.
pub fn connection_domain(captured: Option<String>, cached: Option<String>) -> (r: Option<String>)
    ensures
        r == (match captured {
            Some(d) => Some(d),
            None => cached,
        }),
{
    match captured {
        Some(d) => Some(d),
        None => cached,
    }
}

/// Whether a failure at `now` is logged, given when the last one was: always
/// when none was yet, else once a minute has passed.
pub open spec fn failure_logged(last_log: Option<u64>, now: u64) -> bool {
    match last_log {
        None => true,
        Some(t) => since(t, now) >= FAILURE_LOG_INTERVAL_MS,
    }
}

/// Rate limit on logging connection-processing failures: at most one line a
/// minute, which reports how many failures it stands for.
pub struct FailureLogGate {
    failures: u64,
    last_log: Option<u64>,
}

impl FailureLogGate {
    pub closed spec fn pending(&self) -> u64 {
        self.failures
    }

    pub closed spec fn last_logged(&self) -> Option<u64> {
        self.last_log
    }

    pub fn new() -> (r: FailureLogGate)
        ensures
            r.pending() == 0,
            r.last_logged().is_none(),
    {
        FailureLogGate { failures: 0, last_log: None }
    }

    /// Records a failure at `now` (milliseconds of a monotonic clock). Returns
    /// the number of failures suppressed since the last logged one when this
    /// one is logged (nothing was logged yet, or a minute has passed), else
    /// `None`.
    pub fn on_failure(&mut self, now: u64) -> (r: Option<u64>)
        ensures
            ({
                let n = if old(self).pending() == u64::MAX {
                    0
                } else {
                    (old(self).pending() + 1) as u64
                };
                let log = failure_logged(old(self).last_logged(), now);
                &&& log ==> r == Some((if n == 0 {
                    0
                } else {
                    (n - 1) as u64
                })) && final(self).pending() == 0 && final(self).last_logged() == Some(now)
                &&& !log ==> r.is_none() && final(self).pending() == n && final(self).last_logged()
                    == old(self).last_logged()
            }),
    {
        let n = if self.failures == u64::MAX {
            0
        } else {
            self.failures + 1
        };
        let log = match self.last_log {
            None => true,
            Some(t) => {
                let elapsed = if now >= t {
                    now - t
                } else {
                    0
                };
                elapsed >= FAILURE_LOG_INTERVAL_MS
            },
        };
        if log {
            self.failures = 0;
            self.last_log = Some(now);
            Some(
                if n == 0 {
                    0
                } else {
                    n - 1
                },
            )
        } else {
            self.failures = n;
            None
        }
    }
}

/// At most one failure is logged a minute: after a logged failure at `t`,
/// none is logged before `t` plus a minute; the first failure is always logged.
pub proof fn law_one_failure_log_per_minute(t: u64, later: u64)
    ensures
        failure_logged(None, t),
        t <= later < t + FAILURE_LOG_INTERVAL_MS ==> !failure_logged(Some(t), later),
        later >= t + FAILURE_LOG_INTERVAL_MS ==> failure_logged(Some(t), later),
{
}

/// Rate limit on bandwidth events: at most one per app and second.
pub struct BandwidthThrottle {
    last_publish: HashMap<u128, u64>,
}

impl View for BandwidthThrottle {
    type V = Map<u128, u64>;

    closed spec fn view(&self) -> Map<u128, u64> {
        self.last_publish@
    }
}

impl BandwidthThrottle {
    pub fn new() -> (r: BandwidthThrottle)
        ensures
            r@ == Map::<u128, u64>::empty(),
    {
        BandwidthThrottle { last_publish: HashMap::new() }
    }

    /// Whether a bandwidth event for `app_id` may be published at `now`
    /// (milliseconds of a monotonic clock): not when one was published less
    /// than a second before. A publication is remembered.
    pub fn should_publish(&mut self, app_id: u128, now: u64) -> (r: bool)
        ensures
            r == !(old(self)@.dom().contains(app_id) && since(old(self)@[app_id], now)
                < BANDWIDTH_PUBLISH_INTERVAL_MS),
            r ==> final(self)@ == old(self)@.insert(app_id, now),
            !r ==> final(self)@ == old(self)@,
    {
        let recent = match self.last_publish.get(&app_id) {
            Some(t) => {
                let elapsed = if now >= *t {
                    now - *t
                } else {
                    0
                };
                elapsed < BANDWIDTH_PUBLISH_INTERVAL_MS
            },
            None => false,
        };
        if recent {
            false
        } else {
            self.last_publish.insert(app_id, now);
            true
        }
    }
}

/// Within a second of a published bandwidth event, no other event for the same
/// app is published.
pub proof fn law_one_bandwidth_event_per_second(m: Map<u128, u64>, app_id: u128, t: u64, later: u64)
    requires
        t <= later < t + BANDWIDTH_PUBLISH_INTERVAL_MS,
    ensures
        ({
            let after = m.insert(app_id, t);
            after.dom().contains(app_id) && since(after[app_id], later) < BANDWIDTH_PUBLISH_INTERVAL_MS
        }),
{
}

/// Event published for a processed connection.
#[derive(Debug, Clone, Copy, PartialEq, Eq, Structural)]
pub enum TrafficOutcome {
    Blocked,
    Allowed,
}

/// A connection whose route blocks it is published as blocked, any other as
/// allowed.
pub fn traffic_outcome(route_blocked: bool) -> (r: TrafficOutcome)
    ensures
        r == (if route_blocked {
            TrafficOutcome::Blocked
        } else {
            TrafficOutcome::Allowed
        }),
{
    if route_blocked {
        TrafficOutcome::Blocked
    } else {
        TrafficOutcome::Allowed
    }
}

/// What the event bridge does on a service event.
#[derive(Debug, Clone, Copy, PartialEq, Eq, Structural)]
pub enum BridgeAction {
    /// Sync the split tunnel, then TCP termination, with the connected profile.
    VpnConnected(u128),
    /// Tell TCP termination the profile disconnected.
    VpnDisconnected(u128),
    /// Tell TCP termination the app's route changed.
    RouteChanged(u128),
    /// Nothing.
    Ignore,
}

/// Kind of service event the bridge reacts to.
#[derive(Debug, Clone, Copy, PartialEq, Eq, Structural)]
pub enum BridgeEvent {
    VpnConnected { profile_id: u128 },
    VpnDisconnected { profile_id: u128 },
    RouteChanged { app_id: u128 },
    Other,
}

pub fn bridge_action(event: BridgeEvent) -> (r: BridgeAction)
    ensures
        r == match event {
            BridgeEvent::VpnConnected { profile_id } => BridgeAction::VpnConnected(profile_id),
            BridgeEvent::VpnDisconnected { profile_id } => BridgeAction::VpnDisconnected(profile_id),
            BridgeEvent::RouteChanged { app_id } => BridgeAction::RouteChanged(app_id),
            BridgeEvent::Other => BridgeAction::Ignore,
        },
{
    match event {
        BridgeEvent::VpnConnected { profile_id } => BridgeAction::VpnConnected(profile_id),
        BridgeEvent::VpnDisconnected { profile_id } => BridgeAction::VpnDisconnected(profile_id),
        BridgeEvent::RouteChanged { app_id } => BridgeAction::RouteChanged(app_id),
        BridgeEvent::Other => BridgeAction::Ignore,
    }
}

} // verus!
