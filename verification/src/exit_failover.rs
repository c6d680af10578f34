//! Per-app ordered exit route failover state and decisions.

use vstd::prelude::*;
use std::collections::HashMap;
use crate::routing::{AppRecord, ExitOnExhaustion, RouteView, TrafficRoute, effective_exit, route_profile, routes_view};

verus! {

/// What the failover decided for one app after its current exit route failed.
pub enum FailoverAction {
    /// Switched to the next exit route.
    Advanced { app_id: u128, from_index: usize, to_index: usize, route: TrafficRoute, failed_route: TrafficRoute },
    /// No exit route is left; the app's traffic takes `route` (blocked or
    /// direct), and `kill_switch` asks for the global kill switch to be armed.
    Exhausted { app_id: u128, action: ExitOnExhaustion, route: TrafficRoute, kill_switch: bool },
}

pub enum FailoverActionView {
    Advanced { app_id: u128, from_index: int, to_index: int, route: RouteView, failed_route: RouteView },
    Exhausted { app_id: u128, action: ExitOnExhaustion, route: RouteView, kill_switch: bool },
}

impl View for FailoverAction {
    type V = FailoverActionView;

    open spec fn view(&self) -> FailoverActionView {
        match self {
            FailoverAction::Advanced { app_id, from_index, to_index, route, failed_route } =>
                FailoverActionView::Advanced {
                app_id: *app_id,
                from_index: *from_index as int,
                to_index: *to_index as int,
                route: route@,
                failed_route: failed_route@,
            },
            FailoverAction::Exhausted { app_id, action, route, kill_switch } => FailoverActionView::Exhausted {
                app_id: *app_id,
                action: *action,
                route: route@,
                kill_switch: *kill_switch,
            },
        }
    }
}

/// Active exit index of an app (0, the primary route, when never failed over).
pub open spec fn spec_active_index(m: Map<u128, usize>, app_id: u128) -> int {
    if m.contains_key(app_id) {
        m[app_id] as int
    } else {
        0
    }
}

/// Route an app's traffic takes once its exit routes are exhausted.
pub open spec fn exhaustion_route(action: ExitOnExhaustion) -> RouteView {
    match action {
        ExitOnExhaustion::Direct => RouteView::Direct,
        _ => RouteView::Blocked,
    }
}

/// Failover step for one app when the VPN profile `profile_id` disconnects:
/// the new index map and the action taken, if the app's current route used
/// that profile.
pub open spec fn spec_failover_app(m: Map<u128, usize>, record: AppRecord, profile_id: u128) -> (Map<
    u128,
    usize,
>, Option<FailoverActionView>) {
    match effective_exit(record) {
        None => (m, None),
        Some((routes, on_exhaustion)) => {
            let cur = spec_active_index(m, record.app_id);
            if routes.len() == 0 || cur >= routes.len() || route_profile(routes[cur]) != Some(profile_id) {
                (m, None)
            } else if cur + 1 < routes.len() {
                (
                    m.insert(record.app_id, (cur + 1) as usize),
                    Some(
                        FailoverActionView::Advanced {
                            app_id: record.app_id,
                            from_index: cur,
                            to_index: cur + 1,
                            route: routes[cur + 1],
                            failed_route: routes[cur],
                        },
                    ),
                )
            } else {
                (
                    m,
                    Some(
                        FailoverActionView::Exhausted {
                            app_id: record.app_id,
                            action: on_exhaustion,
                            route: exhaustion_route(on_exhaustion),
                            kill_switch: on_exhaustion == ExitOnExhaustion::KillSwitch,
                        },
                    ),
                )
            }
        },
    }
}

/// Failover over a list of apps, in order.
pub open spec fn spec_failover(m: Map<u128, usize>, apps: Seq<AppRecord>, profile_id: u128) -> (Map<
    u128,
    usize,
>, Seq<FailoverActionView>)
    decreases apps.len(),
{
    if apps.len() == 0 {
        (m, Seq::empty())
    } else {
        let (m1, acts) = spec_failover(m, apps.drop_last(), profile_id);
        let (m2, a) = spec_failover_app(m1, apps.last(), profile_id);
        match a {
            Some(x) => (m2, acts.push(x)),
            None => (m2, acts),
        }
    }
}

/// Exit route currently in force: the clamped index and the route at it.
pub open spec fn spec_resolved_index(m: Map<u128, usize>, app_id: u128, n: int) -> int {
    let i = spec_active_index(m, app_id);
    let last = if n == 0 { 0 } else { n - 1 };
    if i < last { i } else { last }
}

pub struct ExitFailoverService {
    active_index: HashMap<u128, usize>,
}

impl View for ExitFailoverService {
    type V = Map<u128, usize>;

    closed spec fn view(&self) -> Map<u128, usize> {
        self.active_index@
    }
}

impl ExitFailoverService {
    pub fn new() -> (r: Self)
        ensures
            r@ == Map::<u128, usize>::empty(),
    {
        ExitFailoverService { active_index: HashMap::new() }
    }

    /// Index of the exit route in force for `app_id`.
    pub fn active_index(&self, app_id: u128) -> (r: usize)
        ensures
            r == spec_active_index(self@, app_id),
    {
        match self.active_index.get(&app_id) {
            Some(i) => *i,
            None => 0,
        }
    }

    /// Returns `app_id` to its primary exit route.
    pub fn reset_index(&mut self, app_id: u128)
        ensures
            final(self)@ == old(self)@.insert(app_id, 0),
    {
        self.active_index.insert(app_id, 0);
    }

    /// Exit routes of `record`, the index in force (clamped to the last route),
    /// the route at that index, and the exhaustion action (blocked by default).
    pub fn resolve_active_route(&self, record: &AppRecord) -> (r: (
        Vec<TrafficRoute>,
        usize,
        Option<TrafficRoute>,
        ExitOnExhaustion,
    ))
        ensures
            match effective_exit(*record) {
                Some((routes, on_exhaustion)) => {
                    &&& routes_view(r.0@) == routes
                    &&& r.1 == spec_resolved_index(self@, record.app_id, routes.len() as int)
                    &&& r.3 == on_exhaustion
                    &&& match r.2 {
                        Some(route) => r.1 < routes.len() && route@ == routes[r.1 as int],
                        None => routes.len() == 0,
                    }
                },
                None => r.0@.len() == 0 && r.1 == 0 && r.2.is_none() && r.3 == ExitOnExhaustion::Blocked,
            },
    {
        let (routes, on_exhaustion) = match record.effective_exit_routes() {
            Some((rs, a)) => (rs, a),
            None => (Vec::new(), ExitOnExhaustion::Blocked),
        };
        proof {
            assert(routes@.len() == routes_view(routes@).len());
        }
        let active = self.active_index(record.app_id);
        let last = if routes.len() == 0 { 0 } else { routes.len() - 1 };
        let index = if active < last { active } else { last };
        let route = if index < routes.len() {
            Some(routes[index].duplicate())
        } else {
            None
        };
        (routes, index, route, on_exhaustion)
    }

    /// Handles the disconnect of VPN profile `profile_id`: every app whose exit
    /// route in force tunnels through it moves to its next exit route, or is
    /// exhausted. Returns what was decided for each affected app, in order.
    pub fn on_vpn_disconnected(&mut self, apps: &[AppRecord], profile_id: u128) -> (actions: Vec<FailoverAction>)
        ensures
            final(self)@ == spec_failover(old(self)@, apps@, profile_id).0,
            actions@.map_values(|a: FailoverAction| a@) == spec_failover(old(self)@, apps@, profile_id).1,
    {
        let ghost m0 = self@;
        let mut actions: Vec<FailoverAction> = Vec::new();
        let mut i: usize = 0;
        while i < apps.len()
            invariant
                m0 == old(self)@,
                i <= apps@.len(),
                self@ == spec_failover(m0, apps@.take(i as int), profile_id).0,
                actions@.map_values(|a: FailoverAction| a@) == spec_failover(m0, apps@.take(i as int), profile_id).1,
            decreases apps@.len() - i,
        {
            proof {
                assert(apps@.take(i + 1).drop_last() =~= apps@.take(i as int));
                assert(apps@.take(i + 1).last() == apps@[i as int]);
            }
            let ghost before = actions@;
            let act = self.failover_app(&apps[i], profile_id);
            match act {
                Some(a) => {
                    actions.push(a);
                    proof {
                        assert(actions@.map_values(|a: FailoverAction| a@) =~= before.map_values(
                            |a: FailoverAction| a@,
                        ).push(actions@.last()@));
                    }
                },
                None => {},
            }
            i += 1;
        }
        assert(apps@.take(apps@.len() as int) =~= apps@);
        actions
    }

    fn failover_app(&mut self, record: &AppRecord, profile_id: u128) -> (r: Option<FailoverAction>)
        ensures
            final(self)@ == spec_failover_app(old(self)@, *record, profile_id).0,
            match r {
                Some(a) => spec_failover_app(old(self)@, *record, profile_id).1 == Some(a@),
                None => spec_failover_app(old(self)@, *record, profile_id).1.is_none(),
            },
    {
        let (routes, on_exhaustion) = match record.effective_exit_routes() {
            Some(x) => x,
            None => return None,
        };
        proof {
            assert(routes@.len() == routes_view(routes@).len());
        }
        if routes.len() == 0 {
            return None;
        }
        let current_index = self.active_index(record.app_id);
        if current_index >= routes.len() {
            return None;
        }
        proof {
            assert(routes_view(routes@)[current_index as int] == routes@[current_index as int]@);
        }
        let matches = match routes[current_index].profile_id() {
            Some(p) => p == profile_id,
            None => false,
        };
        if !matches {
            return None;
        }
        let failed_route = routes[current_index].duplicate();
        let app_id = record.app_id;
        if current_index + 1 < routes.len() {
            let next_index = current_index + 1;
            proof {
                assert(routes_view(routes@)[next_index as int] == routes@[next_index as int]@);
            }
            let next_route = routes[next_index].duplicate();
            self.active_index.insert(app_id, next_index);
            return Some(
                FailoverAction::Advanced {
                    app_id,
                    from_index: current_index,
                    to_index: next_index,
                    route: next_route,
                    failed_route,
                },
            );
        }
        let route = match on_exhaustion {
            ExitOnExhaustion::Direct => TrafficRoute::Direct,
            _ => TrafficRoute::Blocked,
        };
        let kill_switch = match on_exhaustion {
            ExitOnExhaustion::KillSwitch => true,
            _ => false,
        };
        Some(FailoverAction::Exhausted { app_id, action: on_exhaustion, route, kill_switch })
    }
}

/// Returning an app to its primary route makes its first exit route the route
/// in force again.
pub proof fn law_reset_returns_to_primary(m: Map<u128, usize>, app_id: u128, n: int)
    requires
        n > 0,
    ensures
        spec_active_index(m.insert(app_id, 0), app_id) == 0,
        spec_resolved_index(m.insert(app_id, 0), app_id, n) == 0,
{
}

/// A failover step moves the index of an app by exactly one route and never
/// past its last route; apps whose route in force does not use the
/// disconnected profile keep their index.
pub proof fn law_failover_advances_one_route(m: Map<u128, usize>, record: AppRecord, profile_id: u128)
    requires
        effective_exit(record) matches Some((routes, _)) ==> routes.len() <= usize::MAX,
    ensures
        ({
            let (m2, a) = spec_failover_app(m, record, profile_id);
            &&& a.is_none() ==> m2 == m
            &&& (a matches Some(FailoverActionView::Advanced { app_id, from_index, to_index, .. }) ==> {
                &&& app_id == record.app_id
                &&& to_index == from_index + 1
                &&& from_index == spec_active_index(m, record.app_id)
                &&& spec_active_index(m2, record.app_id) == to_index
                &&& to_index < effective_exit(record)->Some_0.0.len()
            })
            &&& (a matches Some(FailoverActionView::Exhausted { .. }) ==> m2 == m)
        }),
{
}

} // verus!
