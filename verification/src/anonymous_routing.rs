//! Anonymous route orchestration: the hops a route runs through and which
//! transport must be made ready for it.

use vstd::prelude::*;
use crate::error::ServiceError;
use crate::ids::{uuid_text, uuid_to_string};
use crate::routing::{AnonymousRoute, AnonymousRouteView, RouteView, TrafficRoute};

verus! {

/// A hop of an anonymous chain as the route engine validates it.
#[derive(Debug, Clone, Copy, PartialEq, Eq, Structural)]
pub enum AnonymousChainHop {
    Tor,
    TorBridge,
    Mixnet,
    Katzenpost,
    Loopix,
    FederatedMixnet,
}

/// Hops of an anonymous route.
pub open spec fn spec_route_hops(r: AnonymousRouteView) -> Seq<AnonymousChainHop> {
    match r {
        AnonymousRouteView::Tor(_) => seq![AnonymousChainHop::Tor, AnonymousChainHop::Mixnet],
        AnonymousRouteView::TorBridge(_) => seq![AnonymousChainHop::TorBridge, AnonymousChainHop::Mixnet],
        AnonymousRouteView::FutureMixnet(_) => seq![AnonymousChainHop::Mixnet],
        AnonymousRouteView::Katzenpost(_) => seq![AnonymousChainHop::Katzenpost],
        AnonymousRouteView::Loopix(_) => seq![AnonymousChainHop::Loopix],
        AnonymousRouteView::FederatedMixnet(_) => seq![AnonymousChainHop::FederatedMixnet],
        AnonymousRouteView::MultiHop(_) => seq![AnonymousChainHop::Tor, AnonymousChainHop::Mixnet],
    }
}

/// The hops an anonymous route runs through.
pub fn resolve_anonymous_route(route: &AnonymousRoute) -> (r: Result<Vec<AnonymousChainHop>, ServiceError>)
    ensures
        r matches Ok(hops) && hops@ == spec_route_hops(route@),
{
    let mut v: Vec<AnonymousChainHop> = Vec::new();
    match route {
        AnonymousRoute::Tor(_) => {
            v.push(AnonymousChainHop::Tor);
            v.push(AnonymousChainHop::Mixnet);
        },
        AnonymousRoute::TorBridge(_) => {
            v.push(AnonymousChainHop::TorBridge);
            v.push(AnonymousChainHop::Mixnet);
        },
        AnonymousRoute::FutureMixnet(_) => v.push(AnonymousChainHop::Mixnet),
        AnonymousRoute::Katzenpost(_) => v.push(AnonymousChainHop::Katzenpost),
        AnonymousRoute::Loopix(_) => v.push(AnonymousChainHop::Loopix),
        AnonymousRoute::FederatedMixnet { .. } => v.push(AnonymousChainHop::FederatedMixnet),
        AnonymousRoute::MultiHop(_) => {
            v.push(AnonymousChainHop::Tor);
            v.push(AnonymousChainHop::Mixnet);
        },
    }
    assert(v@ =~= spec_route_hops(route@));
    Ok(v)
}

/// The transport to make ready; each readies a profile and yields its local
/// SOCKS port.
#[derive(Debug, Clone, Copy, PartialEq, Eq, Structural)]
pub enum ReadyStep {
    /// Start the Tor profile.
    StartTor(u128),
    /// Make the mixnet profile ready.
    Mixnet(u128),
    /// Start the Tor profile, then make the mixnet profile ready (its port counts).
    TorThenMixnet(u128, u128),
    /// Make the Katzenpost route ready.
    Katzenpost(u128),
    /// Make the Loopix route ready.
    Loopix(u128),
    /// Make the federated mixnet route ready.
    FederatedMixnet(u128),
    /// Make the proxy route ready.
    Proxy(u128),
    /// Ready every hop of the stored chain.
    Chain(u128),
}

/// What readying an anonymous route takes.
pub open spec fn spec_anonymous_step(r: AnonymousRouteView) -> Option<ReadyStep> {
    match r {
        AnonymousRouteView::Tor(id) => Some(ReadyStep::StartTor(id)),
        AnonymousRouteView::TorBridge(id) => Some(ReadyStep::StartTor(id)),
        AnonymousRouteView::FutureMixnet(id) => Some(ReadyStep::Mixnet(id)),
        AnonymousRouteView::Katzenpost(id) => Some(ReadyStep::Katzenpost(id)),
        AnonymousRouteView::Loopix(id) => Some(ReadyStep::Loopix(id)),
        AnonymousRouteView::FederatedMixnet(id) => Some(ReadyStep::FederatedMixnet(id)),
        AnonymousRouteView::MultiHop(ids) => if ids.len() >= 2 {
            Some(ReadyStep::TorThenMixnet(ids[0], ids[1]))
        } else if ids.len() == 1 {
            Some(ReadyStep::Mixnet(ids[0]))
        } else {
            None
        },
    }
}

/// What readying an anonymous route takes; a multi-hop route without profile
/// ids is refused.
pub fn anonymous_ready_step(route: &AnonymousRoute) -> (r: Result<ReadyStep, ServiceError>)
    ensures
        match spec_anonymous_step(route@) {
            Some(s) => r == Ok::<ReadyStep, ServiceError>(s),
            None => r matches Err(ServiceError::Other(m)) && m@ == "multi-hop anonymous route has no profile ids"@,
        },
{
    match route {
        AnonymousRoute::Tor(id) => Ok(ReadyStep::StartTor(*id)),
        AnonymousRoute::TorBridge(id) => Ok(ReadyStep::StartTor(*id)),
        AnonymousRoute::FutureMixnet(id) => Ok(ReadyStep::Mixnet(*id)),
        AnonymousRoute::Katzenpost(id) => Ok(ReadyStep::Katzenpost(*id)),
        AnonymousRoute::Loopix(id) => Ok(ReadyStep::Loopix(*id)),
        AnonymousRoute::FederatedMixnet { profile_id } => Ok(ReadyStep::FederatedMixnet(*profile_id)),
        AnonymousRoute::MultiHop(ids) => {
            if ids.len() >= 2 {
                Ok(ReadyStep::TorThenMixnet(ids[0], ids[1]))
            } else if ids.len() == 1 {
                Ok(ReadyStep::Mixnet(ids[0]))
            } else {
                Err(ServiceError::Other(String::from_str("multi-hop anonymous route has no profile ids")))
            }
        },
    }
}

/// What readying a route takes: Tor routes start Tor, chains ready their hops,
/// anonymous routes as above; any other route is refused.
pub fn ready_step(route: &TrafficRoute) -> (r: Result<ReadyStep, ServiceError>)
    ensures
        match route@ {
            RouteView::Tor(id) => r == Ok::<ReadyStep, ServiceError>(ReadyStep::StartTor(id)),
            RouteView::Chain(id) => r == Ok::<ReadyStep, ServiceError>(ReadyStep::Chain(id)),
            RouteView::Anonymous(a) => match spec_anonymous_step(a) {
                Some(s) => r == Ok::<ReadyStep, ServiceError>(s),
                None => r matches Err(ServiceError::Other(m)) && m@
                    == "multi-hop anonymous route has no profile ids"@,
            },
            _ => r matches Err(ServiceError::Policy(m)) && m@ == "route does not require anonymous transport"@,
        },
{
    match route {
        TrafficRoute::Tor(id) => Ok(ReadyStep::StartTor(*id)),
        TrafficRoute::Anonymous(a) => anonymous_ready_step(a),
        TrafficRoute::Chain(id) => Ok(ReadyStep::Chain(*id)),
        _ => Err(ServiceError::Policy(String::from_str("route does not require anonymous transport"))),
    }
}

/// Kind of a hop of a stored anonymous chain.
#[derive(Debug, Clone, Copy, PartialEq, Eq, Structural)]
pub enum AnonymousChainHopKind {
    Tor,
    Mixnet,
    Katzenpost,
    Loopix,
    FederatedMixnet,
    Proxy,
    Vpn,
    TlsTunnel,
    WebSocket,
}

/// What readying a hop of a stored chain takes; VPN hops and the transports
/// not supported yet are refused.
pub fn hop_ready_step(kind: AnonymousChainHopKind, profile_id: u128) -> (r: Result<ReadyStep, ServiceError>)
    ensures
        match kind {
            AnonymousChainHopKind::Tor => r == Ok::<ReadyStep, ServiceError>(ReadyStep::StartTor(profile_id)),
            AnonymousChainHopKind::Mixnet => r == Ok::<ReadyStep, ServiceError>(ReadyStep::Mixnet(profile_id)),
            AnonymousChainHopKind::Katzenpost => r == Ok::<ReadyStep, ServiceError>(
                ReadyStep::Katzenpost(profile_id),
            ),
            AnonymousChainHopKind::Loopix => r == Ok::<ReadyStep, ServiceError>(ReadyStep::Loopix(profile_id)),
            AnonymousChainHopKind::FederatedMixnet => r == Ok::<ReadyStep, ServiceError>(
                ReadyStep::FederatedMixnet(profile_id),
            ),
            AnonymousChainHopKind::Proxy => r == Ok::<ReadyStep, ServiceError>(ReadyStep::Proxy(profile_id)),
            AnonymousChainHopKind::Vpn => r matches Err(ServiceError::Other(m)) && m@
                == "vpn hop in anonymous chain requires active vpn connection"@,
            AnonymousChainHopKind::TlsTunnel => r matches Err(ServiceError::Other(m)) && m@
                == "anonymous chain hop TlsTunnel not yet supported"@,
            AnonymousChainHopKind::WebSocket => r matches Err(ServiceError::Other(m)) && m@
                == "anonymous chain hop WebSocket not yet supported"@,
        },
{
    match kind {
        AnonymousChainHopKind::Tor => Ok(ReadyStep::StartTor(profile_id)),
        AnonymousChainHopKind::Mixnet => Ok(ReadyStep::Mixnet(profile_id)),
        AnonymousChainHopKind::Katzenpost => Ok(ReadyStep::Katzenpost(profile_id)),
        AnonymousChainHopKind::Loopix => Ok(ReadyStep::Loopix(profile_id)),
        AnonymousChainHopKind::FederatedMixnet => Ok(ReadyStep::FederatedMixnet(profile_id)),
        AnonymousChainHopKind::Proxy => Ok(ReadyStep::Proxy(profile_id)),
        AnonymousChainHopKind::Vpn => Err(
            ServiceError::Other(String::from_str("vpn hop in anonymous chain requires active vpn connection")),
        ),
        AnonymousChainHopKind::TlsTunnel => Err(
            ServiceError::Other(String::from_str("anonymous chain hop TlsTunnel not yet supported")),
        ),
        AnonymousChainHopKind::WebSocket => Err(
            ServiceError::Other(String::from_str("anonymous chain hop WebSocket not yet supported")),
        ),
    }
}

/// Whether a stored chain may be readied: it must exist and be enabled.
pub fn chain_precheck(chain_id: u128, found: Option<bool>) -> (r: Result<(), ServiceError>)
    ensures
        match found {
            None => r matches Err(ServiceError::Other(m)) && m@ == "anonymous chain "@ + uuid_text(chain_id)
                + " not found"@,
            Some(false) => r matches Err(ServiceError::Policy(m)) && m@ == "anonymous chain "@ + uuid_text(
                chain_id,
            ) + " is disabled"@,
            Some(true) => r is Ok,
        },
{
    match found {
        None => {
            let mut m = String::from_str("anonymous chain ");
            m.append(uuid_to_string(chain_id).as_str());
            m.append(" not found");
            Err(ServiceError::Other(m))
        },
        Some(false) => {
            let mut m = String::from_str("anonymous chain ");
            m.append(uuid_to_string(chain_id).as_str());
            m.append(" is disabled");
            Err(ServiceError::Policy(m))
        },
        Some(true) => Ok(()),
    }
}

/// Port of a readied chain: that of its last hop; a chain without hops is refused.
pub fn chain_port(last_port: Option<u16>) -> (r: Result<u16, ServiceError>)
    ensures
        match last_port {
            Some(p) => r == Ok::<u16, ServiceError>(p),
            None => r matches Err(ServiceError::Other(m)) && m@ == "anonymous chain has no hops"@,
        },
{
    match last_port {
        Some(p) => Ok(p),
        None => Err(ServiceError::Other(String::from_str("anonymous chain has no hops"))),
    }
}

} // verus!
