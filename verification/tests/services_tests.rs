use core_service::anonymity::{
    anonymity_status, federated_port, katzenpost_after_start, profile_not_found, provider_for_route, route_target,
    started_port, ProviderTarget,
};
use core_service::anonymity_decoy::{check_create_route, decoy_mode, simulated_hops, DecoyMode};
use core_service::anonymity_discovery::{AnonymityDiscoveryService, DiscoveredService};
use core_service::anonymity_entropy::RouteEntropyBridge;
use core_service::anonymous_routing::{
    chain_port, chain_precheck, hop_ready_step, ready_step, resolve_anonymous_route, AnonymousChainHop,
    AnonymousChainHopKind, ReadyStep,
};
use core_service::api_types::{
    default_leaks_limit, export_kind, parse_order, parse_traffic_sort, BenchmarkQuery, DnsLogsQuery, ExportKind,
    LeaksQuery, LimitQuery, SortOrder, TrafficSortField,
};
use core_service::audit::{policy_changed_entry, route_changed_entry};
use core_service::auth::{icacls_outcome, new_token, restrict_token_acl, token_path, AclStep};
use core_service::backup::{import_audit, import_detail, manifest_entry, settings_to_apply, export_detail};
use core_service::benchmark::{drain_ui_event_throughput, record_ui_event_published};
use core_service::correlation::TrafficCorrelator;
use core_service::cover_traffic::{
    default_settings, prepare_upsert, settings_not_found, start_if_enabled, CoverTrafficEvent, CoverTrafficProfile,
    CoverTrafficSettings, CoverTrafficState,
};
use core_service::diagnostics::{bundle_files, check_dns, check_outcome, check_transport, check_vpn, check_wfp,
    log_archive_name};
use core_service::enforcement::GuardianMode;
use core_service::error::ServiceError;
use core_service::fault_injection::{fault_for, recovery_verified, Fault};
use core_service::guardian::DriverState;
use core_service::hot_settings::HotSettings;
use core_service::kernel_api::{
    KernelPacketEntry, KernelRouteEntry, KernelStatusResponse, KernelTelemetryResponse, NdisStatusResponse,
    Protocol, TrafficDirection, TrafficEvent,
};
use core_service::kernel_route_bridge::{KernelRouteBridge, NdisSync};
use core_service::mixnet::{
    after_health_check, core_provider_name, count_open_sessions, gateway_change, ready_check, MixnetHealth,
    MixnetSessionState, ReadyCheck,
};
use core_service::orchestrator::{
    bridge_action, connection_domain, should_process, traffic_outcome, BandwidthThrottle, BridgeAction, BridgeEvent,
    FailureLogGate, TrafficOutcome,
};
use core_service::performance::{record_event_published, snapshot_interval_secs, EventCounter};
use core_service::plugins::{mixnet_providers, plugin_not_found, PluginCapability, PluginSummary};
use core_service::privacy::{calculate_privacy_score, DnsTransport, LeakSample, RouteStatSample};
use core_service::privacy_analytics::{anonymity_bonus, cover_effectiveness_quarters, path_diversity_tenths};
use core_service::profile_cache::{ProfileCache, VpnBackendKind};
use core_service::records::{
    backup_export_format, bool_text, clone_name, default_dns_providers, dns_log_disposition, stamp_for_write,
    BackupFormat, DnsQueryEvent,
};
use core_service::routing::{AnonymousRoute, AppRecord, TrafficRoute};
use core_service::security_policy::{KatzenpostProfile, MixnetProfile, MixnetProvider};
use core_service::leak::LeakType;

fn uuid_text(v: u128) -> String {
    uuid::Uuid::from_u128(v).to_string()
}

fn mixnet_profile() -> MixnetProfile {
    MixnetProfile {
        id: 1,
        name: "m".to_string(),
        gateway_id: None,
        provider: MixnetProvider::Nym,
        config_keys: None,
        enabled: true,
        active: true,
        last_error: Some("old".to_string()),
        latency_ms: None,
        created_at: 5_000,
        updated_at: 5_000,
        last_health_at: None,
    }
}

#[test]
fn anonymity_routes_and_status() {
    assert_eq!(provider_for_route(&TrafficRoute::Loopix(1)), Some(core_service::security_policy::AnonymityProvider::Loopix));
    assert_eq!(provider_for_route(&TrafficRoute::Direct), None);
    assert_eq!(route_target(&TrafficRoute::Anonymous(AnonymousRoute::Katzenpost(4))).ok(), Some(ProviderTarget::Katzenpost(4)));
    match route_target(&TrafficRoute::Direct) {
        Err(ServiceError::Policy(m)) => assert_eq!(m, "route does not require anonymity transport"),
        _ => panic!("expected refusal"),
    }
    match route_target(&TrafficRoute::Anonymous(AnonymousRoute::Tor(1))) {
        Err(ServiceError::Policy(m)) => assert_eq!(m, "anonymous route variant not handled by anonymity service"),
        _ => panic!("expected refusal"),
    }
    let s = anonymity_status(&vec![true, false, true], &vec![false], &vec![3, 5], 2);
    assert!(s.katzenpost_active && !s.loopix_active && s.federated_active);
    assert_eq!(s.active_providers, 2);
    assert_eq!((s.hop_total, s.sessions), (8, 2));
    let empty = anonymity_status(&vec![], &vec![], &vec![], 1);
    assert_eq!((empty.hop_total, empty.sessions, empty.federated_active), (0, 1, false));
    assert_eq!(federated_port(Some(None)).ok(), Some(9360));
    assert_eq!(federated_port(Some(Some(9000))).ok(), Some(9000));
    assert!(federated_port(None).is_err());
    match started_port("loopix", None) {
        Err(ServiceError::Other(m)) => assert_eq!(m, "loopix listen port unavailable"),
        _ => panic!("expected error"),
    }
    match profile_not_found("katzenpost", 3) {
        ServiceError::Other(m) => assert_eq!(m, format!("katzenpost profile {} not found", uuid_text(3))),
        _ => panic!("expected other"),
    }
    let p = KatzenpostProfile {
        id: 1,
        name: "k".to_string(),
        gateway_id: None,
        enabled: true,
        active: false,
        last_error: None,
        updated_at: 0,
    };
    let failed = katzenpost_after_start(p, Err("boom".to_string()), 9);
    assert!(!failed.active);
    assert_eq!(failed.last_error.as_deref(), Some("boom"));
    assert_eq!(failed.updated_at, 9);
    assert_eq!(RouteEntropyBridge::estimate_from_counts(0, false), 2);
    assert_eq!(RouteEntropyBridge::estimate_from_counts(4, true), 12);
    let types = vec!["tor".to_string(), "direct".to_string(), "tor".to_string()];
    assert_eq!(RouteEntropyBridge::score_route_types(&types), (2, 3));
}

#[test]
fn anonymous_route_hops_and_steps() {
    assert_eq!(
        resolve_anonymous_route(&AnonymousRoute::TorBridge(1)).ok(),
        Some(vec![AnonymousChainHop::TorBridge, AnonymousChainHop::Mixnet])
    );
    assert_eq!(ready_step(&TrafficRoute::Tor(2)).ok(), Some(ReadyStep::StartTor(2)));
    assert_eq!(ready_step(&TrafficRoute::Chain(3)).ok(), Some(ReadyStep::Chain(3)));
    assert_eq!(
        ready_step(&TrafficRoute::Anonymous(AnonymousRoute::MultiHop(vec![1, 2, 3]))).ok(),
        Some(ReadyStep::TorThenMixnet(1, 2))
    );
    assert_eq!(ready_step(&TrafficRoute::Anonymous(AnonymousRoute::MultiHop(vec![7]))).ok(), Some(ReadyStep::Mixnet(7)));
    match ready_step(&TrafficRoute::Anonymous(AnonymousRoute::MultiHop(vec![]))) {
        Err(ServiceError::Other(m)) => assert_eq!(m, "multi-hop anonymous route has no profile ids"),
        _ => panic!("expected error"),
    }
    match ready_step(&TrafficRoute::Direct) {
        Err(ServiceError::Policy(m)) => assert_eq!(m, "route does not require anonymous transport"),
        _ => panic!("expected policy error"),
    }
    assert_eq!(hop_ready_step(AnonymousChainHopKind::Proxy, 5).ok(), Some(ReadyStep::Proxy(5)));
    match hop_ready_step(AnonymousChainHopKind::WebSocket, 5) {
        Err(ServiceError::Other(m)) => assert_eq!(m, "anonymous chain hop WebSocket not yet supported"),
        _ => panic!("expected error"),
    }
    assert!(hop_ready_step(AnonymousChainHopKind::Vpn, 5).is_err());
    match chain_precheck(9, Some(false)) {
        Err(ServiceError::Policy(m)) => assert_eq!(m, format!("anonymous chain {} is disabled", uuid_text(9))),
        _ => panic!("expected policy error"),
    }
    assert!(chain_precheck(9, None).is_err());
    assert!(chain_precheck(9, Some(true)).is_ok());
    assert_eq!(chain_port(Some(1080)).ok(), Some(1080));
    assert!(chain_port(None).is_err());
}

#[test]
fn api_query_defaults() {
    let q = LimitQuery { limit: None, offset: Some(4) };
    assert_eq!(q.limit_or(100), 100);
    assert_eq!(q.offset_or_zero(), 4);
    assert_eq!(parse_order(Some("asc")), SortOrder::Asc);
    assert_eq!(parse_order(Some("ASC")), SortOrder::Desc);
    assert_eq!(parse_traffic_sort(Some("bytes")), TrafficSortField::Bytes);
    let dq = DnsLogsQuery {
        limit: None,
        offset: None,
        qname: Some("a".to_string()),
        blocked: Some(true),
        sort: None,
        order: Some("asc".to_string()),
    }
    .to_log_query();
    assert_eq!((dq.limit, dq.offset, dq.order), (100, 0, SortOrder::Asc));
    assert_eq!(default_leaks_limit(), 50);
    assert_eq!(LeaksQuery::default_query().limit, 50);
    assert_eq!(BenchmarkQuery { limit: None }.limit_or_default(), 10);
    assert_eq!(export_kind(Some("csv"), Some("logs")), ExportKind::Csv);
    assert_eq!(export_kind(None, Some("logs")), ExportKind::Logs);
    assert_eq!(export_kind(Some("json"), None), ExportKind::Snapshots);
}

#[test]
fn audit_entries() {
    let e = policy_changed_entry(1, "kill_switch_active", &Some("false".to_string()), &Some("true".to_string()), None, 5);
    assert_eq!(e.event_type, "policy_changed");
    assert_eq!(e.detail_json.as_deref(), Some("{\"field\":\"kill_switch_active\",\"new\":\"true\",\"old\":\"false\"}"));
    let e = policy_changed_entry(1, "say \"hi\"", &None, &Some("v2".to_string()), Some("controller-agent".to_string()), 5);
    assert_eq!(e.detail_json.as_deref(), Some("{\"field\":\"say \\\"hi\\\"\",\"new\":\"v2\",\"old\":null}"));
    assert_eq!(e.actor.as_deref(), Some("controller-agent"));
    let r = route_changed_entry(2, 3, None, Some("\"Direct\""), None, 6);
    assert_eq!(r.target_id, Some(uuid_text(3)));
    assert_eq!(r.detail_json.as_deref(), Some("{\"new_route\":\"Direct\",\"old_route\":null}"));
}

#[test]
fn auth_token_handling() {
    assert_eq!(token_path("/data"), "/data/.api-token");
    assert!(uuid::Uuid::parse_str(&new_token()).is_ok());
    assert!(matches!(restrict_token_acl(false, "/data/.api-token", true), AclStep::Done(Ok(()))));
    assert!(matches!(restrict_token_acl(true, "C:/t", false), AclStep::Done(Ok(()))));
    match restrict_token_acl(true, "C:/t", true) {
        AclStep::RunIcacls(args) => {
            assert_eq!(args, vec!["C:/t", "/inheritance:r", "/grant:r", "Administrators:(F)", "SYSTEM:(F)"]);
        }
        _ => panic!("expected icacls"),
    }
    match icacls_outcome(false, "denied") {
        Err(ServiceError::Config(m)) => assert_eq!(m, "restrict_token_acl icacls failed: denied"),
        _ => panic!("expected config error"),
    }
    assert!(icacls_outcome(true, "").is_ok());
}

#[test]
fn backup_records() {
    let s = settings_to_apply(Some(70_000), Some(false));
    assert_eq!(s.api_port, Some(70_000u32 as u16));
    assert_eq!(s.recovery_enabled, Some(false));
    let m = manifest_entry(1, "export", "json", b"abc", export_detail(), 3);
    assert_eq!(m.checksum, "900150983cd24fb0d6963f7d28e17f72");
    assert_eq!(m.detail_json, "{}");
    assert_eq!(import_detail(2), "{\"version\":2}");
    let a = import_audit("encrypted", 4);
    assert_eq!(a.action, "backup_import");
    assert_eq!(a.detail.as_deref(), Some("encrypted import"));
    assert_eq!(backup_export_format(Some("encrypted")), BackupFormat::Encrypted);
    assert_eq!(backup_export_format(None), BackupFormat::Json);
}

#[test]
fn counters_and_hot_settings() {
    let mut c = EventCounter::new();
    record_event_published(&mut c);
    record_ui_event_published(&mut c);
    assert_eq!(drain_ui_event_throughput(3, &mut c), 5);
    assert_eq!(c.drain(), 0);
    assert_eq!(snapshot_interval_secs(3), 10);
    let mut h = HotSettings::initial();
    assert!(h.needs_refresh(30_000));
    h.apply_refresh(Some(false), None, Some(true), 100_000);
    assert!(!h.store_traffic_logs());
    assert!(h.store_firewall_decisions());
    assert!(!h.needs_refresh(129_999));
    assert!(h.needs_refresh(130_000));
    h.invalidate();
    assert!(h.needs_refresh(100_001));
}

#[test]
fn cover_traffic_state() {
    let mk = |id: u128, enabled: bool, profile: CoverTrafficProfile| CoverTrafficSettings {
        id,
        mixnet_profile_id: None,
        profile,
        enabled,
        created_at: 0,
        updated_at: 0,
    };
    let list = vec![
        mk(1, false, CoverTrafficProfile::High),
        mk(2, true, CoverTrafficProfile::Disabled),
        mk(3, true, CoverTrafficProfile::Low),
        mk(4, true, CoverTrafficProfile::High),
    ];
    assert_eq!(start_if_enabled(&list), Some(3));
    assert_eq!(start_if_enabled(&vec![]), None);
    let mut st = CoverTrafficState::new();
    let (on, _) = st.toggle_adaptive_mode();
    assert!(on);
    assert!(st.adaptive_should_run(true));
    assert!(!st.adaptive_should_run(false));
    match st.started(3, Some(77)) {
        CoverTrafficEvent::Started { profile_id } => assert_eq!(profile_id, 77),
        _ => panic!("expected started"),
    }
    match st.stopped(3, "settings deleted") {
        CoverTrafficEvent::Stopped { profile_id, reason } => {
            assert_eq!(profile_id, 77);
            assert_eq!(reason, "settings deleted");
        }
        _ => panic!("expected stopped"),
    }
    assert_eq!(st.active_profile_id, None);
    let u = prepare_upsert(mk(0, true, CoverTrafficProfile::Low), 55, 9);
    assert_eq!((u.id, u.created_at, u.updated_at), (55, 9, 9));
    let d = default_settings(5, 1);
    assert!(!d.enabled);
    match settings_not_found(5) {
        ServiceError::Other(m) => assert_eq!(m, format!("cover traffic settings {} not found", uuid_text(5))),
        _ => panic!("expected other"),
    }
}

#[test]
fn diagnostics_checks() {
    let h = check_wfp("loaded", None, "userspace");
    assert_eq!(h.status, "ok");
    assert_eq!(h.message.as_deref(), Some("engine: userspace"));
    assert_eq!(check_wfp("stub", Some("m".to_string()), "x").status, "disabled");
    assert_eq!(check_wfp("crashed", None, "x").status, "error");
    assert_eq!(check_vpn(2).message.as_deref(), Some("2 active tunnel(s)"));
    assert_eq!(check_dns(false).status, "disabled");
    assert_eq!(check_transport(Ok(3)).message.as_deref(), Some("3 profile(s)"));
    assert_eq!(check_transport(Err("down".to_string())).status, "error");
    assert_eq!(check_outcome(Ok(None)).status, "ok");
    assert_eq!(bundle_files(false), vec!["health.json", "version.json"]);
    assert_eq!(bundle_files(true).len(), 3);
    assert_eq!(log_archive_name("a.log"), "logs/a.log");
    assert_eq!(fault_for("vpn_crash"), Fault::VpnCrash);
    assert_eq!(fault_for("other"), Fault::Unknown);
    assert!(recovery_verified("dns_crash", 0));
    assert!(!recovery_verified("vpn_crash", 0));
    assert!(recovery_verified("vpn_crash", 1));
}

#[test]
fn kernel_responses() {
    let d = DriverState { state: "running".to_string(), engine: "kernel".to_string(), filter_count: 4, provider_registered: false };
    let s = KernelStatusResponse::from_driver(&d, true, "kernel");
    assert!(s.driver_connected && s.healthy && s.kill_switch_active);
    assert_eq!(s.ndis_lifecycle_state, "stopped");
    let d2 = DriverState { state: "stopped".to_string(), engine: "userspace".to_string(), filter_count: 0, provider_registered: true };
    let s2 = KernelStatusResponse::from_driver(&d2, false, "userspace");
    assert!(s2.driver_connected && !s2.healthy);
    let t = KernelTelemetryResponse::from_counts(3, &vec![(10, 20), (5, 5)]);
    assert_eq!(t.packets_per_sec, 40);
    assert_eq!(KernelTelemetryResponse::from_counts(0, &vec![(u64::MAX, 9)]).packets_per_sec, u64::MAX);
    assert_eq!(t.classify_count, 30);
    assert_eq!(t.permit_count, 3);
    let t2 = KernelTelemetryResponse::from_counts(u64::MAX, &vec![(10, 20)]);
    assert_eq!(t2.classify_count, u64::MAX);
    assert_eq!(t2.packets_per_sec, 30);
    let app = AppRecord {
        app_id: 5,
        exe_path: "x".to_string(),
        display_name: "Browser".to_string(),
        sha256: None,
        publisher: None,
        icon_path: None,
        last_seen: 0,
        exit_config: None,
        default_route: Some(TrafficRoute::WireGuard(6)),
    };
    let bare = AppRecord { app_id: 9, default_route: None, display_name: "x".to_string(), exe_path: "x".to_string(), sha256: None, publisher: None, icon_path: None, last_seen: 0, exit_config: None };
    let entries = KernelRouteEntry::from_apps(&vec![bare, app]);
    assert_eq!(entries.len(), 1);
    assert_eq!(entries[0].route_kind, format!("wireguard({})", uuid_text(6)));
    assert_eq!(entries[0].label, "Browser");
    assert_eq!(entries[0].app_id, uuid_text(5));
    assert_eq!(
        core_service::kernel_api::route_kind(&TrafficRoute::Anonymous(AnonymousRoute::MultiHop(vec![1, 2]))),
        format!("anonymous(multihop([{}, {}]))", uuid_text(1), uuid_text(2))
    );
    let ev = TrafficEvent { id: 8, process_id: None, protocol: Protocol::Udp, bytes_in: u64::MAX, bytes_out: 5, direction: TrafficDirection::Outbound };
    let p = KernelPacketEntry::from_event(&ev);
    assert_eq!((p.process_id, p.protocol, p.bytes), (0, 17, u64::MAX));
    assert_eq!(p.direction, "outbound");
    let n = NdisStatusResponse::stopped();
    assert!(!n.enabled);
    assert_eq!(n.lifecycle_state, "stopped");
    let bridge = KernelRouteBridge::new(GuardianMode::Wfp);
    assert_eq!(bridge.sync_action(&TrafficRoute::Direct), NdisSync::Skip);
    let bridge = KernelRouteBridge::new(GuardianMode::Ndis);
    assert!(bridge.is_active());
    assert_eq!(bridge.sync_action(&TrafficRoute::Blocked), NdisSync::Clear);
    assert_eq!(bridge.sync_action(&TrafficRoute::Direct), NdisSync::Install);
}

#[test]
fn mixnet_bookkeeping() {
    assert_eq!(core_provider_name(MixnetProvider::Nym), "nym");
    assert_eq!(core_provider_name(MixnetProvider::Plugin(3)), format!("plugin:{}", uuid_text(3)));
    assert_eq!(gateway_change(&Some("a".to_string()), &Some("a".to_string())), None);
    assert_eq!(gateway_change(&None, &Some("b".to_string())), Some("b".to_string()));
    assert_eq!(gateway_change(&Some("a".to_string()), &None), None);
    let unhealthy = MixnetHealth { healthy: false, message: None, checked_at: 42 };
    let p = after_health_check(mixnet_profile(), &unhealthy, 50);
    assert_eq!(p.last_health_at, Some(42));
    assert_eq!(p.last_error, None);
    assert_eq!(core_service::mixnet::health_failure_message(&unhealthy), "health check failed");
    let healthy = MixnetHealth { healthy: true, message: Some("ok".to_string()), checked_at: 43 };
    assert_eq!(after_health_check(mixnet_profile(), &healthy, 50).last_error, None);
    let sessions = vec![
        MixnetSessionState { running: true, ended: false },
        MixnetSessionState { running: true, ended: true },
        MixnetSessionState { running: false, ended: false },
    ];
    assert_eq!(count_open_sessions(&sessions), 1);
    assert!(matches!(ready_check(Some(7), true, false), ReadyCheck::Listening(7)));
    assert!(matches!(ready_check(Some(7), false, false), ReadyCheck::Start));
    assert!(matches!(ready_check(None, true, true), ReadyCheck::Start));
    let created = core_service::mixnet::prepare_create(MixnetProfile { id: 0, created_at: 0, ..mixnet_profile() }, 9, 77);
    assert_eq!((created.id, created.created_at, created.updated_at), (9, 77, 77));
}

#[test]
fn orchestrator_decisions() {
    assert!(!should_process(0));
    assert!(should_process(4));
    assert_eq!(connection_domain(None, Some("c".to_string())), Some("c".to_string()));
    assert_eq!(connection_domain(Some("a".to_string()), Some("c".to_string())), Some("a".to_string()));
    assert_eq!(traffic_outcome(true), TrafficOutcome::Blocked);
    assert_eq!(bridge_action(BridgeEvent::VpnDisconnected { profile_id: 3 }), BridgeAction::VpnDisconnected(3));
    assert_eq!(bridge_action(BridgeEvent::Other), BridgeAction::Ignore);
    let mut gate = FailureLogGate::new();
    assert_eq!(gate.on_failure(1_000), Some(0));
    assert_eq!(gate.on_failure(2_000), None);
    assert_eq!(gate.on_failure(3_000), None);
    assert_eq!(gate.on_failure(61_000), Some(2));
    let mut t = BandwidthThrottle::new();
    assert!(t.should_publish(1, 10_000));
    assert!(!t.should_publish(1, 10_999));
    assert!(t.should_publish(2, 10_999));
    assert!(t.should_publish(1, 11_000));
}

#[test]
fn plugins_and_records() {
    let plugins = vec![
        PluginSummary { id: 1, capabilities: vec![PluginCapability::DnsFilter] },
        PluginSummary { id: 2, capabilities: vec![PluginCapability::Other, PluginCapability::MixnetBackend] },
    ];
    assert_eq!(mixnet_providers(&plugins), vec![1]);
    match plugin_not_found(4) {
        ServiceError::Other(m) => assert_eq!(m, format!("plugin not found: {}", uuid_text(4))),
        _ => panic!("expected other"),
    }
    let s = stamp_for_write(0, 500, 8, 2_000);
    assert_eq!((s.id, s.created_at, s.updated_at), (8, 2_000, 2_000));
    let s = stamp_for_write(3, 1_000, 8, 2_000);
    assert_eq!((s.id, s.created_at), (3, 1_000));
    assert_eq!(bool_text(true), "true");
    assert_eq!(clone_name(Some("  "), "Gaming"), "Gaming (copy)");
    assert_eq!(clone_name(Some("Work"), "Gaming"), "Work");
    assert_eq!(clone_name(None, "Gaming"), "Gaming (copy)");
    let d = default_dns_providers(1, 2, 3);
    assert_eq!(d[0].endpoint, "https://cloudflare-dns.com/dns-query");
    assert_eq!(d[1].priority, 20);
    assert_eq!(dns_log_disposition(None, true), (true, DnsQueryEvent::Blocked));
    assert_eq!(dns_log_disposition(Some(false), false), (false, DnsQueryEvent::Observed));
    let mut cache = ProfileCache::new();
    cache.load(&vec![(1, VpnBackendKind::WireGuard), (2, VpnBackendKind::OpenVpn), (1, VpnBackendKind::AmneziaWg)]);
    assert_eq!(cache.backend_for(1), Some(VpnBackendKind::AmneziaWg));
    assert_eq!(cache.backend_for(3), None);
    assert_eq!(core_service::profile_cache::subscription_url(None), "");
    assert_eq!(
        core_service::profile_cache::subscription_cache_path(None, 5, "/cache"),
        format!("/cache/{}.cache", uuid_text(5))
    );
}

#[test]
fn privacy_scores() {
    let stats = vec![
        RouteStatSample { route_type: "direct".to_string(), bytes_in: 50, bytes_out: 0 },
        RouteStatSample { route_type: "tor".to_string(), bytes_in: 25, bytes_out: 25 },
    ];
    let leaks = vec![
        LeakSample { leak_type: LeakType::Dns, resolved: false },
        LeakSample { leak_type: LeakType::Dns, resolved: true },
        LeakSample { leak_type: LeakType::Route, resolved: false },
    ];
    let s = calculate_privacy_score(true, DnsTransport::Doh, &[true, true, false], true, &stats, &leaks);
    assert_eq!(s.components.encrypted_dns, 100);
    assert_eq!(s.components.blocked_trackers, 40);
    assert_eq!(s.components.vpn_coverage, 100);
    assert_eq!(s.components.route_leakage, 50);
    assert_eq!(s.components.dns_leakage, 75);
    assert_eq!(s.score, 73);
    assert_eq!(anonymity_bonus(true, 1, true), 45);
    assert_eq!(cover_effectiveness_quarters(true, CoverTrafficProfile::Medium), 2);
    assert_eq!(cover_effectiveness_quarters(false, CoverTrafficProfile::Maximum), 0);
    assert_eq!(path_diversity_tenths(12), 10);
}

#[test]
fn decoy_discovery_and_correlation() {
    assert_eq!(decoy_mode(true), DecoyMode::Lab);
    assert!(check_create_route(DecoyMode::Simulation).is_ok());
    match check_create_route(DecoyMode::Research) {
        Err(ServiceError::Policy(m)) => assert_eq!(m, "decoy routing requires lab or simulation mode"),
        _ => panic!("expected policy error"),
    }
    assert_eq!(simulated_hops(3), 3);
    let mut d = AnonymityDiscoveryService::new();
    assert!(d.list_services().is_empty());
    d.record_discovered(vec![DiscoveredService { name: "a".to_string(), endpoint: "a.onion:80".to_string() }]);
    assert_eq!(d.list_services(), vec!["a.onion:80".to_string()]);
    let mut corr = TrafficCorrelator::new(60);
    let rows = corr.on_dns_resolved(Some(1), "example.org", &["5.5.5.5".to_string()], 0);
    assert_eq!(rows.len(), 1);
    assert_eq!(corr.on_traffic(Some(1), "5.5.5.5", 59_999).as_deref(), Some("example.org"));
    assert_eq!(corr.on_traffic(Some(1), "5.5.5.5", 60_000), None);
}
