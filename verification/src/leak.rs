//! Leak classification for DNS, routing and VPN disconnect scenarios.

use vstd::prelude::*;
use crate::routing::{RouteView, TrafficRoute, route_profile};
use crate::ids::{uuid_text, uuid_to_string};

verus! {

#[derive(Debug, Clone, Copy, PartialEq, Eq, Structural)]
pub enum LeakType {
    Dns,
    Route,
    VpnDisconnect,
}

/// A detected leak: its kind, severity and JSON detail.
pub struct LeakReport {
    pub leak_type: LeakType,
    pub severity: String,
    pub detail_json: String,
}

/// `{"reason":"<reason>","remote":"<remote>"}`.
pub open spec fn reason_detail(reason: Seq<char>, remote: Seq<char>) -> Seq<char> {
    "{\"reason\":\""@ + reason + "\",\"remote\":\""@ + remote + "\"}"@
}

/// `{"profile_id":"<id>","reason":"<reason>","remote":"<remote>"}`.
pub open spec fn profile_detail(profile_id: u128, reason: Seq<char>, remote: Seq<char>) -> Seq<char> {
    "{\"profile_id\":\""@ + uuid_text(profile_id) + "\",\"reason\":\""@ + reason + "\",\"remote\":\""@ + remote
        + "\"}"@
}

/// Leaks of a connection, in the order they are reported: DNS to port 53
/// outside the tunnel while a VPN is up (warning); direct traffic while the
/// kill switch is armed and a VPN is up (critical); traffic routed through a
/// VPN profile that is not connected (critical).
pub open spec fn spec_leaks(
    enabled: bool,
    remote_port: u16,
    remote: Seq<char>,
    route: RouteView,
    vpn_connected: bool,
    kill_switch_active: bool,
    profile_connected: bool,
) -> Seq<(LeakType, Seq<char>, Seq<char>)> {
    if !enabled {
        Seq::empty()
    } else {
        let dns = if remote_port == 53 && route == RouteView::Direct && vpn_connected {
            seq![(LeakType::Dns, "warning"@, reason_detail("direct_dns_while_vpn_connected"@, remote))]
        } else {
            Seq::empty()
        };
        let rt = if vpn_connected && kill_switch_active && route == RouteView::Direct {
            seq![(LeakType::Route, "critical"@, reason_detail("direct_while_kill_switch_active"@, remote))]
        } else {
            Seq::empty()
        };
        let vpn = match route_profile(route) {
            Some(p) if !profile_connected => seq![
                (
                    LeakType::VpnDisconnect,
                    "critical"@,
                    profile_detail(p, "traffic_routed_via_disconnected_vpn"@, remote),
                ),
            ],
            _ => Seq::empty(),
        };
        dns + rt + vpn
    }
}

pub open spec fn report_view(r: LeakReport) -> (LeakType, Seq<char>, Seq<char>) {
    (r.leak_type, r.severity@, r.detail_json@)
}

fn reason_json(reason: &str, remote: &str) -> (r: String)
    ensures
        r@ == reason_detail(reason@, remote@),
{
    let mut s = String::from_str("{\"reason\":\"");
    s.append(reason);
    s.append("\",\"remote\":\"");
    s.append(remote);
    s.append("\"}");
    s
}

/// Checks one connection for leaks. `remote` is the text of the remote socket
/// address; `profile_connected` is whether the VPN profile the route tunnels
/// through is connected (ignored for routes without one).
pub fn check_connection(
    enabled: bool,
    remote_port: u16,
    remote: &str,
    route: &TrafficRoute,
    vpn_connected: bool,
    kill_switch_active: bool,
    profile_connected: bool,
) -> (r: Vec<LeakReport>)
    ensures
        r@.map_values(|x: LeakReport| report_view(x)) == spec_leaks(
            enabled,
            remote_port,
            remote@,
            route@,
            vpn_connected,
            kill_switch_active,
            profile_connected,
        ),
{
    let mut out: Vec<LeakReport> = Vec::new();
    if !enabled {
        assert(out@.map_values(|x: LeakReport| report_view(x)) =~= Seq::empty());
        return out;
    }
    let direct = match route {
        TrafficRoute::Direct => true,
        _ => false,
    };
    let ghost remote_v = remote@;
    let ghost dns: Seq<(LeakType, Seq<char>, Seq<char>)> = if remote_port == 53 && route@ == RouteView::Direct
        && vpn_connected {
        seq![(LeakType::Dns, "warning"@, reason_detail("direct_dns_while_vpn_connected"@, remote_v))]
    } else {
        Seq::empty()
    };
    let ghost rt: Seq<(LeakType, Seq<char>, Seq<char>)> = if vpn_connected && kill_switch_active && route@
        == RouteView::Direct {
        seq![(LeakType::Route, "critical"@, reason_detail("direct_while_kill_switch_active"@, remote_v))]
    } else {
        Seq::empty()
    };
    if remote_port == 53 && direct && vpn_connected {
        out.push(
            LeakReport {
                leak_type: LeakType::Dns,
                severity: String::from_str("warning"),
                detail_json: reason_json("direct_dns_while_vpn_connected", remote),
            },
        );
    }
    assert(out@.map_values(|x: LeakReport| report_view(x)) =~= dns);
    if vpn_connected && kill_switch_active && direct {
        out.push(
            LeakReport {
                leak_type: LeakType::Route,
                severity: String::from_str("critical"),
                detail_json: reason_json("direct_while_kill_switch_active", remote),
            },
        );
    }
    assert(out@.map_values(|x: LeakReport| report_view(x)) =~= dns + rt);
    if let Some(profile_id) = route.profile_id() {
        if !profile_connected {
            let mut d = String::from_str("{\"profile_id\":\"");
            let id_text = uuid_to_string(profile_id);
            d.append(id_text.as_str());
            d.append("\",\"reason\":\"");
            d.append("traffic_routed_via_disconnected_vpn");
            d.append("\",\"remote\":\"");
            d.append(remote);
            d.append("\"}");
            out.push(LeakReport { leak_type: LeakType::VpnDisconnect, severity: String::from_str("critical"), detail_json: d });
        }
    }
    assert(out@.map_values(|x: LeakReport| report_view(x)) =~= spec_leaks(
        enabled,
        remote_port,
        remote@,
        route@,
        vpn_connected,
        kill_switch_active,
        profile_connected,
    ));
    out
}

/// Whether `leaks` holds a report of kind `k`.
pub open spec fn reports_kind(leaks: Seq<(LeakType, Seq<char>, Seq<char>)>, k: LeakType) -> bool {
    exists|i: int| 0 <= i < leaks.len() && (#[trigger] leaks[i]).0 == k
}

/// Which leaks a connection reports: a disabled detector none; otherwise a
/// DNS leak (a warning) exactly for direct traffic to port 53 while a VPN is
/// up, a route leak (critical) exactly for direct traffic while the kill switch
/// is armed and a VPN is up, and a VPN-disconnect leak (critical) exactly when
/// the route tunnels through a VPN profile that is not connected. Every report
/// of a kind carries that kind's severity.
pub proof fn law_leak_reports(
    enabled: bool,
    remote_port: u16,
    remote: Seq<char>,
    route: RouteView,
    vpn_connected: bool,
    kill_switch_active: bool,
    profile_connected: bool,
)
    ensures
        ({
            let l = spec_leaks(enabled, remote_port, remote, route, vpn_connected, kill_switch_active, profile_connected);
            &&& !enabled ==> l.len() == 0
            &&& enabled ==> (reports_kind(l, LeakType::VpnDisconnect) <==> (route_profile(route) is Some
                && !profile_connected))
            &&& enabled ==> (reports_kind(l, LeakType::Dns) <==> (remote_port == 53 && route == RouteView::Direct
                && vpn_connected))
            &&& enabled ==> (reports_kind(l, LeakType::Route) <==> (vpn_connected && kill_switch_active && route
                == RouteView::Direct))
            &&& forall|i: int|
                0 <= i < l.len() ==> (#[trigger] l[i]).1 == (if l[i].0 == LeakType::Dns {
                    "warning"@
                } else {
                    "critical"@
                })
        }),
{
    let l = spec_leaks(enabled, remote_port, remote, route, vpn_connected, kill_switch_active, profile_connected);
    if enabled {
        let dns = if remote_port == 53 && route == RouteView::Direct && vpn_connected {
            seq![(LeakType::Dns, "warning"@, reason_detail("direct_dns_while_vpn_connected"@, remote))]
        } else {
            Seq::empty()
        };
        let rt = if vpn_connected && kill_switch_active && route == RouteView::Direct {
            seq![(LeakType::Route, "critical"@, reason_detail("direct_while_kill_switch_active"@, remote))]
        } else {
            Seq::empty()
        };
        let vpn = match route_profile(route) {
            Some(p) if !profile_connected => seq![
                (
                    LeakType::VpnDisconnect,
                    "critical"@,
                    profile_detail(p, "traffic_routed_via_disconnected_vpn"@, remote),
                ),
            ],
            _ => Seq::<(LeakType, Seq<char>, Seq<char>)>::empty(),
        };
        assert(l == dns + rt + vpn);
        assert forall|i: int| 0 <= i < l.len() implies (#[trigger] l[i]).0 == LeakType::VpnDisconnect ==> vpn.len()
            > 0 && i >= dns.len() + rt.len() by {
            if i < dns.len() {
                assert(l[i] == dns[i]);
            } else if i < dns.len() + rt.len() {
                assert(l[i] == rt[i - dns.len()]);
            }
        }
        if vpn.len() > 0 {
            assert(l[(dns.len() + rt.len()) as int] == vpn[0]);
        }
        assert forall|i: int| 0 <= i < l.len() implies ((#[trigger] l[i]).0 == LeakType::Dns ==> dns.len() > 0) && (
        l[i].0 == LeakType::Route ==> rt.len() > 0) by {
            if i < dns.len() {
                assert(l[i] == dns[i]);
            } else if i < dns.len() + rt.len() {
                assert(l[i] == rt[i - dns.len()]);
            } else {
                assert(l[i] == vpn[i - dns.len() - rt.len()]);
            }
        }
        if dns.len() > 0 {
            assert(l[0] == dns[0]);
        }
        if rt.len() > 0 {
            assert(l[dns.len() as int] == rt[0]);
        }
        assert forall|i: int| 0 <= i < l.len() implies (#[trigger] l[i]).1 == (if l[i].0 == LeakType::Dns {
            "warning"@
        } else {
            "critical"@
        }) by {
            if i < dns.len() {
                assert(l[i] == dns[i]);
            } else if i < dns.len() + rt.len() {
                assert(l[i] == rt[i - dns.len()]);
            } else {
                assert(l[i] == vpn[i - dns.len() - rt.len()]);
            }
        }
    }
}

} // verus!
