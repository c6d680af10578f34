//! Flags consulted on every connection, cached and re-read from storage at most
//! once per 30 seconds.

use vstd::prelude::*;

verus! {

/// Milliseconds a read of the flags stays valid.
pub const TTL_MS: i64 = 30_000;

/// Whether flags last read at `last` (milliseconds since the epoch) must be
/// read again at `now`.
pub open spec fn refresh_due(last: i64, now: i64) -> bool {
    now - last >= TTL_MS
}

pub struct HotSettings {
    traffic_logs: bool,
    firewall_decisions: bool,
    dns_logs: bool,
    last_refresh_ms: i64,
}

impl HotSettings {
    pub closed spec fn flags(&self) -> (bool, bool, bool) {
        (self.traffic_logs, self.firewall_decisions, self.dns_logs)
    }

    pub closed spec fn last_refresh(&self) -> i64 {
        self.last_refresh_ms
    }

    /// Every flag on, never refreshed (the first read refreshes).
    pub fn initial() -> (r: HotSettings)
        ensures
            r.flags() == (true, true, true),
            r.last_refresh() == 0,
    {
        HotSettings { traffic_logs: true, firewall_decisions: true, dns_logs: true, last_refresh_ms: 0 }
    }

    /// Whether a read at `now` (milliseconds since the epoch) must re-read
    /// storage first.
    pub fn needs_refresh(&self, now: i64) -> (r: bool)
        ensures
            r == refresh_due(self.last_refresh(), now),
    {
        now as i128 - self.last_refresh_ms as i128 >= 30_000
    }

    /// Takes the flags read from storage at `now`; a flag whose read failed
    /// (`None`) is on.
    pub fn apply_refresh(&mut self, traffic: Option<bool>, firewall: Option<bool>, dns: Option<bool>, now: i64)
        ensures
            final(self).flags() == (
                match traffic {
                    Some(b) => b,
                    None => true,
                },
                match firewall {
                    Some(b) => b,
                    None => true,
                },
                match dns {
                    Some(b) => b,
                    None => true,
                },
            ),
            final(self).last_refresh() == now,
    {
        self.traffic_logs = match traffic {
            Some(b) => b,
            None => true,
        };
        self.firewall_decisions = match firewall {
            Some(b) => b,
            None => true,
        };
        self.dns_logs = match dns {
            Some(b) => b,
            None => true,
        };
        self.last_refresh_ms = now;
    }

    pub fn store_traffic_logs(&self) -> (r: bool)
        ensures
            r == self.flags().0,
    {
        self.traffic_logs
    }

    pub fn store_firewall_decisions(&self) -> (r: bool)
        ensures
            r == self.flags().1,
    {
        self.firewall_decisions
    }

    pub fn store_dns_logs(&self) -> (r: bool)
        ensures
            r == self.flags().2,
    {
        self.dns_logs
    }

    /// Forces the next read to re-read storage (after a settings write).
    pub fn invalidate(&mut self)
        ensures
            final(self).flags() == old(self).flags(),
            final(self).last_refresh() == 0,
    {
        self.last_refresh_ms = 0;
    }
}

/// After an invalidation, every read from 30 seconds after the epoch on
/// re-reads storage; after a refresh at `t`, reads within 30 seconds do not.
pub proof fn law_invalidate_forces_refresh(now: i64, t: i64)
    ensures
        now >= TTL_MS ==> refresh_due(0, now),
        t <= now < t + TTL_MS ==> !refresh_due(t, now),
{
}

} // verus!
