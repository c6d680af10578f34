//! Kernel Guardian / NDIS status responses of the REST API.

use vstd::prelude::*;
use crate::guardian::DriverState;
use crate::ids::{uuid_text, uuid_to_string};
use crate::routing::{AnonymousRoute, AnonymousRouteView, AppRecord, RouteView, TrafficRoute};
use crate::text::{str_eq, to_owned_string};

verus! {

pub struct KernelStatusResponse {
    pub guardian_mode: String,
    pub driver_connected: bool,
    pub lifecycle_state: String,
    pub wfp_engine: String,
    pub filter_count: u32,
    pub provider_registered: bool,
    pub kill_switch_active: bool,
    pub ndis_enabled: bool,
    pub ndis_lifecycle_state: String,
    pub healthy: bool,
}

impl KernelStatusResponse {
    /// Status of the kernel guardian: the driver counts as connected when its
    /// provider is registered or the engine is `kernel`, and as healthy when it
    /// is also `running`; NDIS is reported stopped.
    pub fn from_driver(driver: &DriverState, kill_switch_active: bool, wfp_engine: &str) -> (r: KernelStatusResponse)
        ensures
            r.guardian_mode@ == wfp_engine@,
            r.wfp_engine@ == wfp_engine@,
            r.driver_connected == (driver.provider_registered || driver.engine@ == "kernel"@),
            r.healthy == (driver.state@ == "running"@ && r.driver_connected),
            r.lifecycle_state@ == driver.state@,
            r.filter_count == driver.filter_count,
            r.provider_registered == driver.provider_registered,
            r.kill_switch_active == kill_switch_active,
            !r.ndis_enabled,
            r.ndis_lifecycle_state@ == "stopped"@,
    {
        let driver_connected = driver.provider_registered || str_eq(driver.engine.as_str(), "kernel");
        let healthy = str_eq(driver.state.as_str(), "running") && driver_connected;
        KernelStatusResponse {
            guardian_mode: to_owned_string(wfp_engine),
            driver_connected,
            lifecycle_state: driver.state.clone(),
            wfp_engine: to_owned_string(wfp_engine),
            filter_count: driver.filter_count,
            provider_registered: driver.provider_registered,
            kill_switch_active,
            ndis_enabled: false,
            ndis_lifecycle_state: String::from_str("stopped"),
            healthy,
        }
    }
}

pub struct KernelTelemetryResponse {
    pub classify_count: u64,
    pub block_count: u64,
    pub route_count: u64,
    pub permit_count: u64,
    pub observe_count: u64,
    pub error_count: u64,
    pub avg_classify_latency_ns: u64,
    pub max_classify_latency_ns: u64,
    pub packets_per_sec: u64,
}

/// Bytes per second of one bandwidth sample: inbound plus outbound, saturating.
pub open spec fn sample_rate(s: (u64, u64)) -> int {
    if s.0 + s.1 > u64::MAX {
        u64::MAX as int
    } else {
        s.0 + s.1
    }
}

/// Sum of the rates of the samples.
pub open spec fn total_rate(s: Seq<(u64, u64)>) -> int
    decreases s.len(),
{
    if s.len() == 0 {
        0
    } else {
        total_rate(s.drop_last()) + sample_rate(s.last())
    }
}

proof fn lemma_total_rate_monotone(s: Seq<(u64, u64)>, i: int)
    requires
        0 <= i <= s.len(),
    ensures
        0 <= total_rate(s.take(i)) <= total_rate(s),
    decreases s.len() - i,
{
    if i < s.len() {
        lemma_total_rate_monotone(s, i + 1);
        assert(s.take(i + 1).drop_last() =~= s.take(i));
    } else {
        assert(s.take(i) =~= s);
    }
    lemma_total_rate_nonneg(s.take(i));
}

proof fn lemma_total_rate_nonneg(s: Seq<(u64, u64)>)
    ensures
        total_rate(s) >= 0,
    decreases s.len(),
{
    if s.len() > 0 {
        lemma_total_rate_nonneg(s.drop_last());
    }
}

impl KernelTelemetryResponse {
    /// Telemetry from the number of route statistics and the bandwidth samples
    /// (bytes in and out per second of each app): ten classifications and one
    /// permit per route, packets per second the sum of the samples' rates.
    pub fn from_counts(route_count: u64, bandwidth: &Vec<(u64, u64)>) -> (r: KernelTelemetryResponse)
        requires
            total_rate(bandwidth@) <= u64::MAX,
        ensures
            r.classify_count == (if route_count * 10 > u64::MAX {
                u64::MAX as int
            } else {
                route_count * 10
            }),
            r.route_count == route_count,
            r.permit_count == route_count,
            r.packets_per_sec == total_rate(bandwidth@),
            r.block_count == 0,
            r.observe_count == 0,
            r.error_count == 0,
            r.avg_classify_latency_ns == 0,
            r.max_classify_latency_ns == 0,
    {
        let mut total: u64 = 0;
        let mut i: usize = 0;
        while i < bandwidth.len()
            invariant
                i <= bandwidth@.len(),
                total_rate(bandwidth@) <= u64::MAX,
                total == total_rate(bandwidth@.take(i as int)),
            decreases bandwidth@.len() - i,
        {
            proof {
                assert(bandwidth@.take(i + 1).drop_last() =~= bandwidth@.take(i as int));
                lemma_total_rate_monotone(bandwidth@, i + 1);
            }
            let (a, b) = bandwidth[i];
            total = total + a.saturating_add(b);
            i += 1;
        }
        proof {
            assert(bandwidth@.take(bandwidth@.len() as int) =~= bandwidth@);
        }
        KernelTelemetryResponse {
            classify_count: if route_count > u64::MAX / 10 {
                u64::MAX
            } else {
                route_count * 10
            },
            block_count: 0,
            route_count,
            permit_count: route_count,
            observe_count: 0,
            error_count: 0,
            avg_classify_latency_ns: 0,
            max_classify_latency_ns: 0,
            packets_per_sec: total,
        }
    }
}

pub struct KernelRouteEntry {
    pub route_id: String,
    pub app_id: String,
    pub route_kind: String,
    pub label: String,
    pub active: bool,
}

/// `name(id)`.
pub open spec fn tagged(name: Seq<char>, id: u128) -> Seq<char> {
    name + seq!['('] + uuid_text(id) + seq![')']
}

/// Identifiers separated by `, `.
pub open spec fn id_list(ids: Seq<u128>) -> Seq<char>
    decreases ids.len(),
{
    if ids.len() == 0 {
        Seq::empty()
    } else if ids.len() == 1 {
        uuid_text(ids[0])
    } else {
        id_list(ids.drop_last()) + ", "@ + uuid_text(ids.last())
    }
}

/// Lower-case debug text of an anonymous route.
pub open spec fn anonymous_kind_text(a: AnonymousRouteView) -> Seq<char> {
    match a {
        AnonymousRouteView::Tor(id) => tagged("tor"@, id),
        AnonymousRouteView::TorBridge(id) => tagged("torbridge"@, id),
        AnonymousRouteView::FutureMixnet(id) => tagged("futuremixnet"@, id),
        AnonymousRouteView::Katzenpost(id) => tagged("katzenpost"@, id),
        AnonymousRouteView::Loopix(id) => tagged("loopix"@, id),
        AnonymousRouteView::FederatedMixnet(id) => "federatedmixnet { profile_id: "@ + uuid_text(id) + " }"@,
        AnonymousRouteView::MultiHop(ids) => "multihop(["@ + id_list(ids) + "])"@,
    }
}

/// Lower-case debug text of a route, the kind the kernel API reports.
pub open spec fn route_kind_text(r: RouteView) -> Seq<char> {
    match r {
        RouteView::Direct => "direct"@,
        RouteView::Blocked => "blocked"@,
        RouteView::WireGuard(id) => tagged("wireguard"@, id),
        RouteView::Proxy(id) => tagged("proxy"@, id),
        RouteView::Tor(id) => tagged("tor"@, id),
        RouteView::Chain(id) => tagged("chain"@, id),
        RouteView::Katzenpost(id) => tagged("katzenpost"@, id),
        RouteView::Loopix(id) => tagged("loopix"@, id),
        RouteView::FederatedMixnet(id) => tagged("federatedmixnet"@, id),
        RouteView::Anonymous(a) => "anonymous("@ + anonymous_kind_text(a) + ")"@,
    }
}

fn push_tagged(s: &mut String, name: &str, id: u128)
    ensures
        final(s)@ == old(s)@ + tagged(name@, id),
{
    s.append(name);
    s.append("(");
    let t = uuid_to_string(id);
    s.append(t.as_str());
    s.append(")");
    proof {
        reveal_strlit("(");
        reveal_strlit(")");
        assert(final(s)@ =~= old(s)@ + tagged(name@, id));
    }
}

fn push_id_list(s: &mut String, ids: &Vec<u128>)
    ensures
        final(s)@ == old(s)@ + id_list(ids@),
{
    let mut i: usize = 0;
    while i < ids.len()
        invariant
            i <= ids@.len(),
            s@ == old(s)@ + id_list(ids@.take(i as int)),
        decreases ids@.len() - i,
    {
        let ghost before = s@;
        if i > 0 {
            s.append(", ");
        }
        let t = uuid_to_string(ids[i]);
        s.append(t.as_str());
        proof {
            let p = ids@.take(i + 1);
            assert(p.drop_last() =~= ids@.take(i as int));
            assert(p.last() == ids@[i as int]);
            if i == 0 {
                assert(p.len() == 1);
                assert(id_list(ids@.take(0)) =~= Seq::<char>::empty());
            }
            assert(s@ =~= old(s)@ + id_list(p));
        }
        i += 1;
    }
    assert(ids@.take(ids@.len() as int) =~= ids@);
}

fn anonymous_kind(a: &AnonymousRoute) -> (r: String)
    ensures
        r@ == anonymous_kind_text(a@),
{
    let mut s = String::new();
    match a {
        AnonymousRoute::Tor(id) => push_tagged(&mut s, "tor", *id),
        AnonymousRoute::TorBridge(id) => push_tagged(&mut s, "torbridge", *id),
        AnonymousRoute::FutureMixnet(id) => push_tagged(&mut s, "futuremixnet", *id),
        AnonymousRoute::Katzenpost(id) => push_tagged(&mut s, "katzenpost", *id),
        AnonymousRoute::Loopix(id) => push_tagged(&mut s, "loopix", *id),
        AnonymousRoute::FederatedMixnet { profile_id } => {
            s.append("federatedmixnet { profile_id: ");
            let t = uuid_to_string(*profile_id);
            s.append(t.as_str());
            s.append(" }");
        },
        AnonymousRoute::MultiHop(ids) => {
            s.append("multihop([");
            push_id_list(&mut s, ids);
            s.append("])");
        },
    }
    proof {
        assert(Seq::<char>::empty() + anonymous_kind_text(a@) =~= anonymous_kind_text(a@));
    }
    s
}

/// Lower-case debug text of a route.
pub fn route_kind(route: &TrafficRoute) -> (r: String)
    ensures
        r@ == route_kind_text(route@),
{
    let mut s = String::new();
    match route {
        TrafficRoute::Direct => s.append("direct"),
        TrafficRoute::Blocked => s.append("blocked"),
        TrafficRoute::WireGuard(id) => push_tagged(&mut s, "wireguard", *id),
        TrafficRoute::Proxy(id) => push_tagged(&mut s, "proxy", *id),
        TrafficRoute::Tor(id) => push_tagged(&mut s, "tor", *id),
        TrafficRoute::Chain(id) => push_tagged(&mut s, "chain", *id),
        TrafficRoute::Katzenpost(id) => push_tagged(&mut s, "katzenpost", *id),
        TrafficRoute::Loopix(id) => push_tagged(&mut s, "loopix", *id),
        TrafficRoute::FederatedMixnet(id) => push_tagged(&mut s, "federatedmixnet", *id),
        TrafficRoute::Anonymous(a) => {
            s.append("anonymous(");
            let t = anonymous_kind(a);
            s.append(t.as_str());
            s.append(")");
        },
    }
    proof {
        assert(Seq::<char>::empty() + route_kind_text(route@) =~= route_kind_text(route@));
    }
    s
}

/// The kernel route entry of an app with a default route.
pub open spec fn route_entry_matches(e: KernelRouteEntry, app: AppRecord) -> bool {
    &&& app.default_route matches Some(route) && e.route_kind@ == route_kind_text(route@)
    &&& e.route_id@ == uuid_text(app.app_id)
    &&& e.app_id@ == uuid_text(app.app_id)
    &&& e.label@ == app.display_name@
    &&& e.active
}

/// Number of apps among the first `n` that have a default route.
pub open spec fn routed_count(apps: Seq<AppRecord>, n: int) -> nat
    decreases n,
{
    if n <= 0 {
        0
    } else {
        routed_count(apps, n - 1) + (if apps[n - 1].default_route is Some {
            1nat
        } else {
            0nat
        })
    }
}

impl KernelRouteEntry {
    /// One entry per app with a default route, in the apps' order.
    pub fn from_apps(apps: &Vec<AppRecord>) -> (r: Vec<KernelRouteEntry>)
        ensures
            r@.len() == routed_count(apps@, apps@.len() as int),
            forall|i: int|
                0 <= i < apps@.len() && (#[trigger] apps@[i]).default_route is Some ==> route_entry_matches(
                    r@[routed_count(apps@, i) as int],
                    apps@[i],
                ),
    {
        let mut out: Vec<KernelRouteEntry> = Vec::new();
        let mut i: usize = 0;
        while i < apps.len()
            invariant
                i <= apps@.len(),
                out@.len() == routed_count(apps@, i as int),
                forall|j: int|
                    0 <= j < i && (#[trigger] apps@[j]).default_route is Some ==> route_entry_matches(
                        out@[routed_count(apps@, j) as int],
                        apps@[j],
                    ),
            decreases apps@.len() - i,
        {
            proof {
                lemma_routed_count_monotone(apps@, i as int);
            }
            let app = &apps[i];
            if let Some(route) = &app.default_route {
                let id = uuid_to_string(app.app_id);
                out.push(
                    KernelRouteEntry {
                        route_id: uuid_to_string(app.app_id),
                        app_id: id,
                        route_kind: route_kind(route),
                        label: app.display_name.clone(),
                        active: true,
                    },
                );
            }
            i += 1;
        }
        out
    }
}

proof fn lemma_routed_count_monotone(apps: Seq<AppRecord>, n: int)
    requires
        0 <= n,
    ensures
        forall|j: int| 0 <= j <= n ==> routed_count(apps, j) <= routed_count(apps, n),
        forall|j: int| 0 <= j < n && (#[trigger] apps[j]).default_route is Some ==> routed_count(apps, j) < routed_count(
            apps,
            n,
        ),
    decreases n,
{
    if n > 0 {
        lemma_routed_count_monotone(apps, n - 1);
    }
}

/// Transport protocol of a traffic event.
#[derive(Debug, Clone, Copy, PartialEq, Eq, Structural)]
pub enum Protocol {
    Udp,
    Tcp,
    Icmp,
    Other,
}

/// Direction of a traffic event.
#[derive(Debug, Clone, Copy, PartialEq, Eq, Structural)]
pub enum TrafficDirection {
    Inbound,
    Outbound,
}

/// A logged traffic event, as far as the kernel API reads it.
pub struct TrafficEvent {
    pub id: u128,
    pub process_id: Option<u32>,
    pub protocol: Protocol,
    pub bytes_in: u64,
    pub bytes_out: u64,
    pub direction: TrafficDirection,
}

pub struct KernelPacketEntry {
    pub flow_id: String,
    pub process_id: u32,
    pub protocol: u32,
    pub bytes: u64,
    pub direction: String,
}

/// IANA protocol number.
pub open spec fn protocol_number(p: Protocol) -> u32 {
    match p {
        Protocol::Udp => 17,
        Protocol::Tcp => 6,
        Protocol::Icmp => 1,
        Protocol::Other => 0,
    }
}

impl KernelPacketEntry {
    /// The packet entry of a traffic event: bytes in and out summed
    /// (saturating), the process id 0 where unknown.
    pub fn from_event(ev: &TrafficEvent) -> (r: KernelPacketEntry)
        ensures
            r.flow_id@ == uuid_text(ev.id),
            r.process_id == match ev.process_id {
                Some(p) => p,
                None => 0,
            },
            r.protocol == protocol_number(ev.protocol),
            r.bytes == sample_rate((ev.bytes_in, ev.bytes_out)),
            r.direction@ == match ev.direction {
                TrafficDirection::Inbound => "inbound"@,
                TrafficDirection::Outbound => "outbound"@,
            },
    {
        KernelPacketEntry {
            flow_id: uuid_to_string(ev.id),
            process_id: match ev.process_id {
                Some(p) => p,
                None => 0,
            },
            protocol: match ev.protocol {
                Protocol::Udp => 17,
                Protocol::Tcp => 6,
                Protocol::Icmp => 1,
                Protocol::Other => 0,
            },
            bytes: ev.bytes_in.saturating_add(ev.bytes_out),
            direction: match ev.direction {
                TrafficDirection::Inbound => String::from_str("inbound"),
                TrafficDirection::Outbound => String::from_str("outbound"),
            },
        }
    }
}

pub struct NdisStatusResponse {
    pub enabled: bool,
    pub driver_connected: bool,
    pub lifecycle_state: String,
    pub classify_count: u64,
    pub redirect_count: u64,
    pub transform_count: u64,
    pub cover_traffic_count: u64,
    pub error_count: u64,
    pub pending_events: u32,
}

impl NdisStatusResponse {
    /// The NDIS filter is not available: disabled, disconnected, `stopped`,
    /// all counters zero.
    pub fn stopped() -> (r: NdisStatusResponse)
        ensures
            !r.enabled,
            !r.driver_connected,
            r.lifecycle_state@ == "stopped"@,
            r.classify_count == 0,
            r.redirect_count == 0,
            r.transform_count == 0,
            r.cover_traffic_count == 0,
            r.error_count == 0,
            r.pending_events == 0,
    {
        NdisStatusResponse {
            enabled: false,
            driver_connected: false,
            lifecycle_state: String::from_str("stopped"),
            classify_count: 0,
            redirect_count: 0,
            transform_count: 0,
            cover_traffic_count: 0,
            error_count: 0,
            pending_events: 0,
        }
    }
}

} // verus!
