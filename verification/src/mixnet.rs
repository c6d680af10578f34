//! Mixnet profile management: provider naming, profile bookkeeping around
//! starts and health checks, and when a profile counts as ready.

use vstd::prelude::*;
use crate::error::ServiceError;
use crate::ids::{uuid_text, uuid_to_string};
use crate::routing::AnonymousRoute;
use crate::security_policy::{MixnetProfile, MixnetProvider};
use crate::text::to_owned_string;

verus! {

/// Provider name the mixnet manager knows a profile by: `nym`, or
/// `plugin:{id}`.
pub open spec fn provider_name(p: MixnetProvider) -> Seq<char> {
    match p {
        MixnetProvider::Nym => "nym"@,
        MixnetProvider::Plugin(id) => "plugin:"@ + uuid_text(id),
    }
}

pub fn core_provider_name(p: MixnetProvider) -> (r: String)
    ensures
        r@ == provider_name(p),
{
    match p {
        MixnetProvider::Nym => String::from_str("nym"),
        MixnetProvider::Plugin(id) => {
            let mut s = String::from_str("plugin:");
            s.append(uuid_to_string(id).as_str());
            s
        },
    }
}

/// A profile before it is first stored: a nil id gets `fresh_id`, an unset
/// creation time (in the epoch's first second) becomes `now`, and the
/// update time is `now`.
pub fn prepare_create(profile: MixnetProfile, fresh_id: u128, now: i64) -> (r: MixnetProfile)
    ensures
        r.id == (if profile.id == 0 {
            fresh_id
        } else {
            profile.id
        }),
        r.created_at == (if 0 <= profile.created_at < 1000 {
            now
        } else {
            profile.created_at
        }),
        r.updated_at == now,
        r.name == profile.name,
        r.gateway_id == profile.gateway_id,
        r.provider == profile.provider,
        r.enabled == profile.enabled,
        r.active == profile.active,
{
    let mut p = profile;
    if p.id == 0 {
        p.id = fresh_id;
    }
    if 0 <= p.created_at && p.created_at < 1000 {
        p.created_at = now;
    }
    p.updated_at = now;
    p
}

fn same_gateway(a: &Option<String>, b: &Option<String>) -> (r: bool)
    ensures
        r == (match (a, b) {
            (Some(x), Some(y)) => x@ == y@,
            (None, None) => true,
            _ => false,
        }),
{
    match (a, b) {
        (Some(x), Some(y)) => crate::text::str_eq(x.as_str(), y.as_str()),
        (None, None) => true,
        _ => false,
    }
}

/// Gateway announced after an update: the new gateway, when it is set and
/// differs from the old one.
pub fn gateway_change(old_gateway: &Option<String>, new_gateway: &Option<String>) -> (r: Option<String>)
    ensures
        match new_gateway {
            Some(g) => match old_gateway {
                Some(o) if o@ == g@ => r.is_none(),
                _ => r matches Some(x) && x@ == g@,
            },
            None => r.is_none(),
        },
{
    if same_gateway(old_gateway, new_gateway) {
        return None;
    }
    match new_gateway {
        Some(g) => Some(g.clone()),
        None => None,
    }
}

/// A profile after a start attempt at `now`: active with no error on success,
/// inactive with the error on failure.
pub fn after_start(profile: MixnetProfile, outcome: Result<(), String>, now: i64) -> (r: MixnetProfile)
    ensures
        r.id == profile.id,
        r.gateway_id == profile.gateway_id,
        r.provider == profile.provider,
        r.updated_at == now,
        match outcome {
            Ok(()) => r.active && r.last_error.is_none(),
            Err(e) => !r.active && (r.last_error matches Some(m) && m@ == e@),
        },
{
    let mut p = profile;
    match outcome {
        Ok(()) => {
            p.active = true;
            p.last_error = None;
        },
        Err(e) => {
            p.active = false;
            p.last_error = Some(e);
        },
    }
    p.updated_at = now;
    p
}

/// Result of a health check of a profile's session.
pub struct MixnetHealth {
    pub healthy: bool,
    pub message: Option<String>,
    /// Milliseconds since the epoch.
    pub checked_at: i64,
}

/// A profile after a health check at `now`: the check time is kept, the error
/// is the check's message when unhealthy and cleared when healthy.
pub fn after_health_check(profile: MixnetProfile, health: &MixnetHealth, now: i64) -> (r: MixnetProfile)
    ensures
        r.last_health_at == Some(health.checked_at),
        health.healthy ==> r.last_error.is_none(),
        !health.healthy ==> match health.message {
            Some(m) => r.last_error matches Some(e) && e@ == m@,
            None => r.last_error.is_none(),
        },
        r.updated_at == now,
        r.id == profile.id,
        r.active == profile.active,
{
    let mut p = profile;
    p.last_health_at = Some(health.checked_at);
    p.last_error = if health.healthy {
        None
    } else {
        match &health.message {
            Some(m) => Some(m.clone()),
            None => None,
        }
    };
    p.updated_at = now;
    p
}

/// Error announced for an unhealthy check: its message, else `health check failed`.
pub fn health_failure_message(health: &MixnetHealth) -> (r: String)
    ensures
        match health.message {
            Some(m) => r@ == m@,
            None => r@ == "health check failed"@,
        },
{
    match &health.message {
        Some(m) => m.clone(),
        None => String::from_str("health check failed"),
    }
}

/// A mixnet session, as far as the status counts it.
pub struct MixnetSessionState {
    pub running: bool,
    pub ended: bool,
}

/// Number of sessions running and not ended.
pub open spec fn open_sessions(s: Seq<MixnetSessionState>) -> nat
    decreases s.len(),
{
    if s.len() == 0 {
        0
    } else {
        open_sessions(s.drop_last()) + (if s.last().running && !s.last().ended {
            1nat
        } else {
            0nat
        })
    }
}

pub fn count_open_sessions(sessions: &Vec<MixnetSessionState>) -> (r: usize)
    ensures
        r == open_sessions(sessions@),
{
    let mut n: usize = 0;
    let mut i: usize = 0;
    while i < sessions.len()
        invariant
            i <= sessions@.len(),
            n == open_sessions(sessions@.take(i as int)),
            n <= i,
        decreases sessions@.len() - i,
    {
        proof {
            assert(sessions@.take(i + 1).drop_last() =~= sessions@.take(i as int));
        }
        if sessions[i].running && !sessions[i].ended {
            n += 1;
        }
        i += 1;
    }
    assert(sessions@.take(sessions@.len() as int) =~= sessions@);
    n
}

/// Index of the first active profile.
pub open spec fn first_active(p: Seq<MixnetProfile>) -> Option<int> {
    if exists|i: int| 0 <= i < p.len() && #[trigger] p[i].active {
        Some(choose|i: int| 0 <= i < p.len() && #[trigger] p[i].active && forall|j: int| 0 <= j < i ==> !(#[trigger] p[j].active))
    } else {
        None
    }
}

/// The profile the mixnet status reports: the first active one.
pub fn active_profile_index(profiles: &Vec<MixnetProfile>) -> (r: Option<usize>)
    ensures
        match first_active(profiles@) {
            Some(i) => r == Some(i as usize),
            None => r.is_none(),
        },
{
    let mut i: usize = 0;
    while i < profiles.len()
        invariant
            i <= profiles@.len(),
            forall|j: int| 0 <= j < i ==> !(#[trigger] profiles@[j].active),
        decreases profiles@.len() - i,
    {
        if profiles[i].active {
            proof {
                let p = profiles@;
                let k = choose|k: int|
                    0 <= k < p.len() && #[trigger] p[k].active && forall|j: int| 0 <= j < k ==> !(#[trigger] p[j].active);
                assert(p[i as int].active);
                if k > i {
                    assert(!p[i as int].active);
                }
            }
            return Some(i);
        }
        i += 1;
    }
    None
}

/// How a profile is made ready for traffic.
pub enum ReadyCheck {
    /// Already listening: the port.
    Listening(u16),
    /// It must be started.
    Start,
}

/// Whether a profile is ready: it listens and the manager reports it running;
/// or the stored profile is active and it listens. Otherwise it must start.
pub fn ready_check(listen_port: Option<u16>, manager_running: bool, stored_active: bool) -> (r: ReadyCheck)
    ensures
        match listen_port {
            Some(p) => (manager_running || stored_active) ==> (r matches ReadyCheck::Listening(q) && q == p),
            None => r is Start,
        },
        listen_port is Some && !manager_running && !stored_active ==> r is Start,
{
    match listen_port {
        Some(p) => if manager_running || stored_active {
            ReadyCheck::Listening(p)
        } else {
            ReadyCheck::Start
        },
        None => ReadyCheck::Start,
    }
}

/// The mixnet profile a route needs: only mixnet routes are handled.
pub fn route_profile(route: &AnonymousRoute) -> (r: Result<u128, ServiceError>)
    ensures
        match route {
            AnonymousRoute::FutureMixnet(id) => r == Ok::<u128, ServiceError>(*id),
            _ => r matches Err(ServiceError::Other(m)) && m@ == "ensure_route_ready only supports FutureMixnet"@,
        },
{
    match route {
        AnonymousRoute::FutureMixnet(id) => Ok(*id),
        _ => Err(ServiceError::Other(String::from_str("ensure_route_ready only supports FutureMixnet"))),
    }
}

} // verus!
