//! Anonymity provider orchestration (Katzenpost, Loopix, federated mixnet):
//! status, which provider a route needs, and the outcome of starting one.

use vstd::prelude::*;
use crate::error::ServiceError;
use crate::ids::{uuid_text, uuid_to_string};
use crate::routing::{AnonymousRoute, AnonymousRouteView, RouteView, TrafficRoute};
use crate::security_policy::{AnonymityProvider, KatzenpostProfile, LoopixProfile};

verus! {

/// SOCKS port of a federated route that names none.
pub const DEFAULT_FEDERATED_SOCKS_PORT: u16 = 9360;

/// Provider an anonymity route runs on, if any.
pub open spec fn spec_provider_for_route(r: RouteView) -> Option<AnonymityProvider> {
    match r {
        RouteView::Katzenpost(_) => Some(AnonymityProvider::Katzenpost),
        RouteView::Loopix(_) => Some(AnonymityProvider::Loopix),
        RouteView::FederatedMixnet(_) => Some(AnonymityProvider::FederatedMixnet),
        RouteView::Anonymous(AnonymousRouteView::Katzenpost(_)) => Some(AnonymityProvider::Katzenpost),
        RouteView::Anonymous(AnonymousRouteView::Loopix(_)) => Some(AnonymityProvider::Loopix),
        RouteView::Anonymous(AnonymousRouteView::FederatedMixnet(_)) => Some(AnonymityProvider::FederatedMixnet),
        _ => None,
    }
}

pub fn provider_for_route(route: &TrafficRoute) -> (r: Option<AnonymityProvider>)
    ensures
        r == spec_provider_for_route(route@),
{
    match route {
        TrafficRoute::Katzenpost(_) => Some(AnonymityProvider::Katzenpost),
        TrafficRoute::Loopix(_) => Some(AnonymityProvider::Loopix),
        TrafficRoute::FederatedMixnet(_) => Some(AnonymityProvider::FederatedMixnet),
        TrafficRoute::Anonymous(a) => match a {
            AnonymousRoute::Katzenpost(_) => Some(AnonymityProvider::Katzenpost),
            AnonymousRoute::Loopix(_) => Some(AnonymityProvider::Loopix),
            AnonymousRoute::FederatedMixnet { .. } => Some(AnonymityProvider::FederatedMixnet),
            _ => None,
        },
        _ => None,
    }
}

/// Which provider profile a route needs ready.
#[derive(Debug, Clone, Copy, PartialEq, Eq, Structural)]
pub enum ProviderTarget {
    Katzenpost(u128),
    Loopix(u128),
    Federated(u128),
}

/// The provider profile an anonymity route needs, or the refusal.
pub open spec fn spec_route_target(r: RouteView) -> Result<ProviderTarget, Seq<char>> {
    match r {
        RouteView::Katzenpost(id) => Ok(ProviderTarget::Katzenpost(id)),
        RouteView::Loopix(id) => Ok(ProviderTarget::Loopix(id)),
        RouteView::FederatedMixnet(id) => Ok(ProviderTarget::Federated(id)),
        RouteView::Anonymous(a) => match a {
            AnonymousRouteView::Katzenpost(id) => Ok(ProviderTarget::Katzenpost(id)),
            AnonymousRouteView::Loopix(id) => Ok(ProviderTarget::Loopix(id)),
            AnonymousRouteView::FederatedMixnet(id) => Ok(ProviderTarget::Federated(id)),
            _ => Err("anonymous route variant not handled by anonymity service"@),
        },
        _ => Err("route does not require anonymity transport"@),
    }
}

/// The provider profile `route` needs ready; other routes are refused as a
/// policy error.
pub fn route_target(route: &TrafficRoute) -> (r: Result<ProviderTarget, ServiceError>)
    ensures
        match spec_route_target(route@) {
            Ok(t) => r == Ok::<ProviderTarget, ServiceError>(t),
            Err(m) => r matches Err(ServiceError::Policy(e)) && e@ == m,
        },
{
    match route {
        TrafficRoute::Katzenpost(id) => Ok(ProviderTarget::Katzenpost(*id)),
        TrafficRoute::Loopix(id) => Ok(ProviderTarget::Loopix(*id)),
        TrafficRoute::FederatedMixnet(id) => Ok(ProviderTarget::Federated(*id)),
        TrafficRoute::Anonymous(a) => match a {
            AnonymousRoute::Katzenpost(id) => Ok(ProviderTarget::Katzenpost(*id)),
            AnonymousRoute::Loopix(id) => Ok(ProviderTarget::Loopix(*id)),
            AnonymousRoute::FederatedMixnet { profile_id } => Ok(ProviderTarget::Federated(*profile_id)),
            _ => Err(
                ServiceError::Policy(String::from_str("anonymous route variant not handled by anonymity service")),
            ),
        },
        _ => Err(ServiceError::Policy(String::from_str("route does not require anonymity transport"))),
    }
}

/// Number of active profiles.
pub open spec fn active_count(flags: Seq<bool>) -> nat
    decreases flags.len(),
{
    if flags.len() == 0 {
        0
    } else {
        active_count(flags.drop_last()) + (if flags.last() {
            1nat
        } else {
            0nat
        })
    }
}

fn count_active(flags: &Vec<bool>) -> (r: usize)
    ensures
        r == active_count(flags@),
        r <= flags@.len(),
{
    let mut n: usize = 0;
    let mut i: usize = 0;
    while i < flags.len()
        invariant
            i <= flags@.len(),
            n == active_count(flags@.take(i as int)),
            n <= i,
        decreases flags@.len() - i,
    {
        proof {
            assert(flags@.take(i + 1).drop_last() =~= flags@.take(i as int));
        }
        if flags[i] {
            n += 1;
        }
        i += 1;
    }
    assert(flags@.take(flags@.len() as int) =~= flags@);
    n
}

/// Sum of the hop counts.
pub open spec fn hop_sum(hops: Seq<u32>) -> int
    decreases hops.len(),
{
    if hops.len() == 0 {
        0
    } else {
        hop_sum(hops.drop_last()) + hops.last()
    }
}

proof fn lemma_hop_sum_bound(hops: Seq<u32>)
    ensures
        0 <= hop_sum(hops) <= hops.len() * 0xffff_ffff,
    decreases hops.len(),
{
    if hops.len() > 0 {
        lemma_hop_sum_bound(hops.drop_last());
    }
}

/// Status of the anonymity providers. The entropy score is the mean hop count
/// of the open sessions: `hop_total / sessions` (sessions at least 1).
pub struct AnonymityStatus {
    pub katzenpost_active: bool,
    pub loopix_active: bool,
    pub federated_active: bool,
    pub active_providers: u32,
    pub hop_total: u128,
    pub sessions: u64,
}

/// Status from the profiles' active flags, the hop counts of the open sessions
/// and the number of federation providers discovered (more than one makes the
/// federation active).
pub fn anonymity_status(
    katzenpost_active: &Vec<bool>,
    loopix_active: &Vec<bool>,
    session_hops: &Vec<u32>,
    federation_providers: usize,
) -> (r: AnonymityStatus)
    requires
        active_count(katzenpost_active@) + active_count(loopix_active@) <= u32::MAX,
    ensures
        r.katzenpost_active == (active_count(katzenpost_active@) > 0),
        r.loopix_active == (active_count(loopix_active@) > 0),
        r.federated_active == (federation_providers > 1),
        r.active_providers == active_count(katzenpost_active@) + active_count(loopix_active@),
        r.hop_total == hop_sum(session_hops@),
        r.sessions == (if session_hops@.len() == 0 {
            1
        } else {
            session_hops@.len()
        }),
{
    let k = count_active(katzenpost_active);
    let l = count_active(loopix_active);
    let mut total: u128 = 0;
    let mut i: usize = 0;
    while i < session_hops.len()
        invariant
            i <= session_hops@.len(),
            total == hop_sum(session_hops@.take(i as int)),
        decreases session_hops@.len() - i,
    {
        proof {
            let t = session_hops@.take(i + 1);
            assert(t.drop_last() =~= session_hops@.take(i as int));
            lemma_hop_sum_bound(t);
            assert(i + 1 <= usize::MAX);
            assert((i + 1) * 0xffff_ffff <= 0x1_0000_0000_0000_0000 * 0xffff_ffff) by (nonlinear_arith)
                requires
                    i + 1 <= 0x1_0000_0000_0000_0000,
            ;
        }
        total = total + session_hops[i] as u128;
        i += 1;
    }
    assert(session_hops@.take(session_hops@.len() as int) =~= session_hops@);
    AnonymityStatus {
        katzenpost_active: k > 0,
        loopix_active: l > 0,
        federated_active: federation_providers > 1,
        active_providers: (k + l) as u32,
        hop_total: total,
        sessions: if session_hops.len() == 0 {
            1
        } else {
            session_hops.len() as u64
        },
    }
}

/// Error for a profile that is not stored: `{kind} profile {id} not found`.
pub fn profile_not_found(kind: &str, profile_id: u128) -> (r: ServiceError)
    ensures
        r matches ServiceError::Other(m) && m@ == kind@ + " profile "@ + uuid_text(profile_id) + " not found"@,
{
    let mut m = String::from_str(kind);
    m.append(" profile ");
    m.append(uuid_to_string(profile_id).as_str());
    m.append(" not found");
    ServiceError::Other(m)
}

/// A Katzenpost profile after a start attempt at `now`: active with no error
/// on success, inactive with the error on failure.
pub fn katzenpost_after_start(profile: KatzenpostProfile, outcome: Result<(), String>, now: i64) -> (r:
    KatzenpostProfile)
    ensures
        r.id == profile.id,
        r.name == profile.name,
        r.gateway_id == profile.gateway_id,
        r.enabled == profile.enabled,
        r.updated_at == now,
        match outcome {
            Ok(()) => r.active && r.last_error.is_none(),
            Err(e) => !r.active && (r.last_error matches Some(m) && m@ == e@),
        },
{
    let mut p = profile;
    match outcome {
        Ok(()) => {
            p.active = true;
            p.last_error = None;
        },
        Err(e) => {
            p.active = false;
            p.last_error = Some(e);
        },
    }
    p.updated_at = now;
    p
}

/// A Loopix profile after a start attempt at `now`: active with no error on
/// success, inactive with the error on failure.
pub fn loopix_after_start(profile: LoopixProfile, outcome: Result<(), String>, now: i64) -> (r: LoopixProfile)
    ensures
        r.id == profile.id,
        r.name == profile.name,
        r.provider_id == profile.provider_id,
        r.enabled == profile.enabled,
        r.updated_at == now,
        match outcome {
            Ok(()) => r.active && r.last_error.is_none(),
            Err(e) => !r.active && (r.last_error matches Some(m) && m@ == e@),
        },
{
    let mut p = profile;
    match outcome {
        Ok(()) => {
            p.active = true;
            p.last_error = None;
        },
        Err(e) => {
            p.active = false;
            p.last_error = Some(e);
        },
    }
    p.updated_at = now;
    p
}

/// Port of a federated route: the optimised route's SOCKS port, else 9360; no
/// route at all (no provider registered) is refused.
pub fn federated_port(route_socks_port: Option<Option<u16>>) -> (r: Result<u16, ServiceError>)
    ensures
        match route_socks_port {
            Some(Some(p)) => r == Ok::<u16, ServiceError>(p),
            Some(None) => r == Ok::<u16, ServiceError>(9360u16),
            None => r matches Err(ServiceError::Other(m)) && m@ == "no federated providers registered"@,
        },
{
    match route_socks_port {
        Some(Some(p)) => Ok(p),
        Some(None) => Ok(DEFAULT_FEDERATED_SOCKS_PORT),
        None => Err(ServiceError::Other(String::from_str("no federated providers registered"))),
    }
}

/// Port of a provider after it was started: the listening port, or the error
/// `{kind} listen port unavailable`.
pub fn started_port(kind: &str, port: Option<u16>) -> (r: Result<u16, ServiceError>)
    ensures
        match port {
            Some(p) => r == Ok::<u16, ServiceError>(p),
            None => r matches Err(ServiceError::Other(m)) && m@ == kind@ + " listen port unavailable"@,
        },
{
    match port {
        Some(p) => Ok(p),
        None => {
            let mut m = String::from_str(kind);
            m.append(" listen port unavailable");
            Err(ServiceError::Other(m))
        },
    }
}

} // verus!
