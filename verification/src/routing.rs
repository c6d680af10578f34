//! Traffic routes, per-app exit configuration and app records.

use vstd::prelude::*;

verus! {

/// Hops of an anonymous route.
#[derive(Debug, PartialEq, Eq)]
pub enum AnonymousRoute {
    Tor(u128),
    TorBridge(u128),
    FutureMixnet(u128),
    Katzenpost(u128),
    Loopix(u128),
    FederatedMixnet { profile_id: u128 },
    MultiHop(Vec<u128>),
}

/// Where an app's traffic goes.
#[derive(Debug, PartialEq, Eq)]
pub enum TrafficRoute {
    Direct,
    Blocked,
    WireGuard(u128),
    Proxy(u128),
    Tor(u128),
    Chain(u128),
    Katzenpost(u128),
    Loopix(u128),
    FederatedMixnet(u128),
    Anonymous(AnonymousRoute),
}

pub enum AnonymousRouteView {
    Tor(u128),
    TorBridge(u128),
    FutureMixnet(u128),
    Katzenpost(u128),
    Loopix(u128),
    FederatedMixnet(u128),
    MultiHop(Seq<u128>),
}

pub enum RouteView {
    Direct,
    Blocked,
    WireGuard(u128),
    Proxy(u128),
    Tor(u128),
    Chain(u128),
    Katzenpost(u128),
    Loopix(u128),
    FederatedMixnet(u128),
    Anonymous(AnonymousRouteView),
}

impl View for AnonymousRoute {
    type V = AnonymousRouteView;

    open spec fn view(&self) -> AnonymousRouteView {
        match self {
            AnonymousRoute::Tor(id) => AnonymousRouteView::Tor(*id),
            AnonymousRoute::TorBridge(id) => AnonymousRouteView::TorBridge(*id),
            AnonymousRoute::FutureMixnet(id) => AnonymousRouteView::FutureMixnet(*id),
            AnonymousRoute::Katzenpost(id) => AnonymousRouteView::Katzenpost(*id),
            AnonymousRoute::Loopix(id) => AnonymousRouteView::Loopix(*id),
            AnonymousRoute::FederatedMixnet { profile_id } => AnonymousRouteView::FederatedMixnet(*profile_id),
            AnonymousRoute::MultiHop(ids) => AnonymousRouteView::MultiHop(ids@),
        }
    }
}

impl View for TrafficRoute {
    type V = RouteView;

    open spec fn view(&self) -> RouteView {
        match self {
            TrafficRoute::Direct => RouteView::Direct,
            TrafficRoute::Blocked => RouteView::Blocked,
            TrafficRoute::WireGuard(id) => RouteView::WireGuard(*id),
            TrafficRoute::Proxy(id) => RouteView::Proxy(*id),
            TrafficRoute::Tor(id) => RouteView::Tor(*id),
            TrafficRoute::Chain(id) => RouteView::Chain(*id),
            TrafficRoute::Katzenpost(id) => RouteView::Katzenpost(*id),
            TrafficRoute::Loopix(id) => RouteView::Loopix(*id),
            TrafficRoute::FederatedMixnet(id) => RouteView::FederatedMixnet(*id),
            TrafficRoute::Anonymous(a) => RouteView::Anonymous(a@),
        }
    }
}

/// The VPN profile a route tunnels through, if any.
pub open spec fn route_profile(r: RouteView) -> Option<u128> {
    match r {
        RouteView::WireGuard(id) => Some(id),
        _ => None,
    }
}

/// Views of a list of routes.
pub open spec fn routes_view(rs: Seq<TrafficRoute>) -> Seq<RouteView> {
    rs.map_values(|r: TrafficRoute| r@)
}

fn copy_ids(ids: &Vec<u128>) -> (r: Vec<u128>)
    ensures
        r@ == ids@,
{
    let mut out: Vec<u128> = Vec::new();
    let mut i: usize = 0;
    while i < ids.len()
        invariant
            i <= ids@.len(),
            out@ == ids@.take(i as int),
        decreases ids@.len() - i,
    {
        out.push(ids[i]);
        proof {
            assert(ids@.take(i + 1) =~= ids@.take(i as int).push(ids@[i as int]));
        }
        i += 1;
    }
    assert(ids@.take(ids@.len() as int) =~= ids@);
    out
}

impl AnonymousRoute {
    pub fn duplicate(&self) -> (r: AnonymousRoute)
        ensures
            r@ == self@,
    {
        match self {
            AnonymousRoute::Tor(id) => AnonymousRoute::Tor(*id),
            AnonymousRoute::TorBridge(id) => AnonymousRoute::TorBridge(*id),
            AnonymousRoute::FutureMixnet(id) => AnonymousRoute::FutureMixnet(*id),
            AnonymousRoute::Katzenpost(id) => AnonymousRoute::Katzenpost(*id),
            AnonymousRoute::Loopix(id) => AnonymousRoute::Loopix(*id),
            AnonymousRoute::FederatedMixnet { profile_id } => AnonymousRoute::FederatedMixnet {
                profile_id: *profile_id,
            },
            AnonymousRoute::MultiHop(ids) => AnonymousRoute::MultiHop(copy_ids(ids)),
        }
    }
}

impl TrafficRoute {
    pub fn duplicate(&self) -> (r: TrafficRoute)
        ensures
            r@ == self@,
    {
        match self {
            TrafficRoute::Direct => TrafficRoute::Direct,
            TrafficRoute::Blocked => TrafficRoute::Blocked,
            TrafficRoute::WireGuard(id) => TrafficRoute::WireGuard(*id),
            TrafficRoute::Proxy(id) => TrafficRoute::Proxy(*id),
            TrafficRoute::Tor(id) => TrafficRoute::Tor(*id),
            TrafficRoute::Chain(id) => TrafficRoute::Chain(*id),
            TrafficRoute::Katzenpost(id) => TrafficRoute::Katzenpost(*id),
            TrafficRoute::Loopix(id) => TrafficRoute::Loopix(*id),
            TrafficRoute::FederatedMixnet(id) => TrafficRoute::FederatedMixnet(*id),
            TrafficRoute::Anonymous(a) => TrafficRoute::Anonymous(a.duplicate()),
        }
    }

    /// The VPN profile this route tunnels through.
    pub fn profile_id(&self) -> (r: Option<u128>)
        ensures
            r == route_profile(self@),
    {
        match self {
            TrafficRoute::WireGuard(id) => Some(*id),
            _ => None,
        }
    }

    pub fn is_blocked(&self) -> (r: bool)
        ensures
            r == (self@ == RouteView::Blocked),
    {
        match self {
            TrafficRoute::Blocked => true,
            _ => false,
        }
    }
}

/// Copies a list of routes.
pub fn copy_routes(rs: &Vec<TrafficRoute>) -> (r: Vec<TrafficRoute>)
    ensures
        routes_view(r@) == routes_view(rs@),
{
    let mut out: Vec<TrafficRoute> = Vec::new();
    let mut i: usize = 0;
    while i < rs.len()
        invariant
            i <= rs@.len(),
            out@.len() == i,
            forall|j: int| 0 <= j < i ==> (#[trigger] out@[j])@ == rs@[j]@,
        decreases rs@.len() - i,
    {
        let c = rs[i].duplicate();
        out.push(c);
        i += 1;
    }
    assert(routes_view(out@) =~= routes_view(rs@));
    out
}

/// What happens to an app's traffic once every exit route failed.
#[derive(Debug, Clone, Copy, PartialEq, Eq, Structural)]
pub enum ExitOnExhaustion {
    KillSwitch,
    Blocked,
    Direct,
}

/// Ordered exit routes of an app.
pub struct AppExitConfig {
    pub routes: Vec<TrafficRoute>,
    pub on_exhaustion: ExitOnExhaustion,
}

/// A registered application.
pub struct AppRecord {
    pub app_id: u128,
    pub exe_path: String,
    pub display_name: String,
    pub sha256: Option<String>,
    pub publisher: Option<String>,
    pub icon_path: Option<String>,
    pub last_seen: i64,
    pub exit_config: Option<AppExitConfig>,
    pub default_route: Option<TrafficRoute>,
}

/// Exit configuration in force for an app: its ordered exit routes, or else a
/// single-route configuration built from its default route (blocked once it fails).
pub open spec fn effective_exit(record: AppRecord) -> Option<(Seq<RouteView>, ExitOnExhaustion)> {
    match record.exit_config {
        Some(c) => Some((routes_view(c.routes@), c.on_exhaustion)),
        None => match record.default_route {
            Some(r) => Some((seq![r@], ExitOnExhaustion::Blocked)),
            None => None,
        },
    }
}

impl AppExitConfig {
    /// A configuration made of one route that is blocked once it fails.
    pub fn from_single(route: TrafficRoute) -> (r: AppExitConfig)
        ensures
            routes_view(r.routes@) == seq![route@],
            r.on_exhaustion == ExitOnExhaustion::Blocked,
    {
        let mut routes: Vec<TrafficRoute> = Vec::new();
        routes.push(route);
        assert(routes_view(routes@) =~= seq![route@]);
        AppExitConfig { routes, on_exhaustion: ExitOnExhaustion::Blocked }
    }
}

impl AppRecord {
    /// Routes and exhaustion action in force for this app.
    pub fn effective_exit_routes(&self) -> (r: Option<(Vec<TrafficRoute>, ExitOnExhaustion)>)
        ensures
            match (r, effective_exit(*self)) {
                (Some((rs, a)), Some((vs, b))) => routes_view(rs@) == vs && a == b,
                (None, None) => true,
                _ => false,
            },
    {
        match &self.exit_config {
            Some(c) => Some((copy_routes(&c.routes), c.on_exhaustion)),
            None => match &self.default_route {
                Some(route) => {
                    let c = AppExitConfig::from_single(route.duplicate());
                    Some((c.routes, c.on_exhaustion))
                },
                None => None,
            },
        }
    }
}

} // verus!
