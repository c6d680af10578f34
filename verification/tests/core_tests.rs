use core_service::digest::{backup_checksum, sha256_hex, sha256_hex_of_chunks, StreamingSha256};
use core_service::domain_cache::{DomainResolverCache, StoredResolution};
use core_service::enforcement::{
    apply_backend, backend_from_legacy, backend_from_stored, component_status, enforcement_settings_after_change,
    resolve_mapping, EnforcementBackend, EnforcementMapping, GuardianMode,
};
use core_service::error::{ApiStatus, ServiceError};
use core_service::exit_failover::{ExitFailoverService, FailoverAction};
use core_service::guardian::{validate, NdisHealthSummary};
use core_service::ids::{domain_cache_id, route_statistics_id, uuid_to_string, wfp_filter_state_id, DOMAIN_CACHE_NS,
    WFP_STATE_NS};
use core_service::metrics::{MetricsService, MetricsSnapshot};
use core_service::middleware::{
    extract_bearer, extract_bearer_from_query, validate_token, ws_connection_acquired, ws_connection_released,
    WsConnectionGate,
};
use core_service::routing::{AppExitConfig, AppRecord, ExitOnExhaustion, TrafficRoute};
use core_service::text::{to_decimal, trim_end_matches_char, trim_matches_char};

fn app(exit_config: Option<AppExitConfig>, default_route: Option<TrafficRoute>) -> AppRecord {
    AppRecord {
        app_id: uuid::Uuid::new_v4().as_u128(),
        exe_path: "C:/Apps/app.exe".to_string(),
        display_name: "app".to_string(),
        sha256: None,
        publisher: None,
        icon_path: None,
        last_seen: 0,
        exit_config,
        default_route,
    }
}

#[test]
fn uuid_text_is_hyphenated_lowercase() {
    let id: u128 = 0x0123_4567_89ab_cdef_0123_4567_89ab_cdef;
    assert_eq!(uuid_to_string(id), "01234567-89ab-cdef-0123-456789abcdef");
}

#[test]
fn deterministic_ids_match_uuid_v5() {
    let ns = uuid::Uuid::from_u128(WFP_STATE_NS);
    let expected = uuid::Uuid::new_v5(&ns, b"app|chrome.exe").as_u128();
    assert_eq!(wfp_filter_state_id("app", Some("chrome.exe")), expected);
    let expected_none = uuid::Uuid::new_v5(&ns, b"global|").as_u128();
    assert_eq!(wfp_filter_state_id("global", None), expected_none);
    let app_id: u128 = 7;
    let key = format!("{}|10.0.0.1", uuid::Uuid::from_u128(app_id));
    let dc = uuid::Uuid::new_v5(&uuid::Uuid::from_u128(DOMAIN_CACHE_NS), key.as_bytes()).as_u128();
    assert_eq!(domain_cache_id(Some(app_id), "10.0.0.1"), dc);
}

#[test]
fn route_statistics_id_is_stable_and_window_sensitive() {
    let a = route_statistics_id(Some(1), None, Some("example.com"), "direct", 1_700_000_000_000);
    let b = route_statistics_id(Some(1), None, Some("example.com"), "direct", 1_700_000_000_000);
    let c = route_statistics_id(Some(1), None, Some("example.com"), "direct", 1_700_000_060_000);
    assert!(a.is_some());
    assert_eq!(a, b);
    assert_ne!(a, c);
    assert_eq!(route_statistics_id(None, None, None, "tor", i64::MAX), None);
}

#[test]
fn text_helpers() {
    assert_eq!(to_decimal(0), "0");
    assert_eq!(to_decimal(1234567890), "1234567890");
    assert_eq!(trim_matches_char("\"signed\"", '"'), "signed");
    assert_eq!(trim_end_matches_char("https://x.example///", '/'), "https://x.example");
}

#[test]
fn websocket_slots_are_limited_to_five() {
    let mut gate = WsConnectionGate::new();
    for _ in 0..5 {
        assert!(ws_connection_acquired(&mut gate).is_ok());
    }
    assert_eq!(ws_connection_acquired(&mut gate), Err(ApiStatus::TooManyRequests));
    assert_eq!(gate.count(), 5);
    ws_connection_released(&mut gate);
    assert_eq!(gate.count(), 4);
    assert!(ws_connection_acquired(&mut gate).is_ok());
    assert_eq!(ApiStatus::TooManyRequests.code(), 429);
}

#[test]
fn acquire_then_release_restores_count() {
    let mut gate = WsConnectionGate::new();
    ws_connection_acquired(&mut gate).unwrap();
    let before = gate.count();
    ws_connection_acquired(&mut gate).unwrap();
    ws_connection_released(&mut gate);
    assert_eq!(gate.count(), before);
}

#[test]
fn bearer_token_sources() {
    assert_eq!(extract_bearer_from_query("a=1&token=abc&b=2"), Some("abc".to_string()));
    assert_eq!(extract_bearer_from_query("a=1&b=2"), None);
    assert_eq!(extract_bearer_from_query("token"), None);
    assert_eq!(extract_bearer(Some("Bearer xyz"), Some("other")), Some("xyz".to_string()));
    assert_eq!(extract_bearer(Some("Basic xyz"), Some("other")), Some("other".to_string()));
    assert_eq!(extract_bearer(None, None), None);
    assert!(validate_token("secret", Some("secret")).is_ok());
    match validate_token("secret", Some("wrong")) {
        Err(ServiceError::Api(m)) => assert_eq!(m, "unauthorized"),
        _ => panic!("expected unauthorized"),
    }
    assert!(validate_token("secret", None).is_err());
}

#[test]
fn domain_cache_records_resolves_and_purges() {
    let mut cache = DomainResolverCache::with_ttl(300);
    let app_id = 42u128;
    let rows = cache.record_dns(Some(app_id), "*.googlevideo.com", &["1.1.1.1", "2.2.2.2"], 1000);
    assert_eq!(rows.len(), 2);
    assert!(rows[0].wildcard);
    assert_eq!(rows[0].expires_at, 1000 + 300_000);
    assert_eq!(rows[1].ip_address, "2.2.2.2");
    assert_eq!(rows[0].id, domain_cache_id(Some(app_id), "1.1.1.1"));
    assert_eq!(cache.resolve_ip_to_domain(Some(app_id), "2.2.2.2", 2000).as_deref(), Some("*.googlevideo.com"));
    assert_eq!(cache.resolve_ip_to_domain(Some(app_id), "3.3.3.3", 2000), None);
    // An app-independent entry serves any app.
    cache.record_dns(None, "example.com", &["9.9.9.9"], 1000);
    assert_eq!(cache.resolve_ip_to_domain(Some(7), "9.9.9.9", 2000).as_deref(), Some("example.com"));
    // Expired entries no longer resolve, and purging keeps live ones.
    assert_eq!(cache.resolve_ip_to_domain(Some(app_id), "1.1.1.1", 1000 + 300_000), None);
    cache.purge_expired(2000);
    assert_eq!(cache.resolve_ip_to_domain(Some(app_id), "1.1.1.1", 2000).as_deref(), Some("*.googlevideo.com"));
    let d = cache.remember_stored(
        None,
        "8.8.8.8",
        StoredResolution { domain: "dns.google".to_string(), wildcard: false, expires_at: 10_000 },
    );
    assert_eq!(d, "dns.google");
    assert_eq!(cache.resolve_ip_to_domain(None, "8.8.8.8", 5000).as_deref(), Some("dns.google"));
}

#[test]
fn wildcard_pattern_matches_bare_domain() {
    assert!(DomainResolverCache::matches_domain("*.example.com", "example.com"));
    assert!(DomainResolverCache::matches_domain("example.com", "example.com"));
    assert!(!DomainResolverCache::matches_domain("example.com", "www.example.com"));
    assert!(!DomainResolverCache::matches_domain("*.example.com", "badexample.com"));
}

#[test]
fn failover_exhausts_to_kill_switch() {
    let mut svc = ExitFailoverService::new();
    let p = 11u128;
    let record = app(
        Some(AppExitConfig { routes: vec![TrafficRoute::WireGuard(p)], on_exhaustion: ExitOnExhaustion::KillSwitch }),
        None,
    );
    let actions = svc.on_vpn_disconnected(std::slice::from_ref(&record), p);
    assert_eq!(actions.len(), 1);
    match &actions[0] {
        FailoverAction::Exhausted { app_id, action, route, kill_switch } => {
            assert_eq!(*app_id, record.app_id);
            assert_eq!(*action, ExitOnExhaustion::KillSwitch);
            assert_eq!(*route, TrafficRoute::Blocked);
            assert!(*kill_switch);
        }
        _ => panic!("expected exhaustion"),
    }
}

#[test]
fn failover_ignores_unrelated_profiles_and_uses_default_route() {
    let mut svc = ExitFailoverService::new();
    let record = app(None, Some(TrafficRoute::WireGuard(5)));
    assert!(svc.on_vpn_disconnected(std::slice::from_ref(&record), 6).is_empty());
    let (routes, index, route, on_exhaustion) = svc.resolve_active_route(&record);
    assert_eq!(routes, vec![TrafficRoute::WireGuard(5)]);
    assert_eq!(index, 0);
    assert_eq!(route, Some(TrafficRoute::WireGuard(5)));
    assert_eq!(on_exhaustion, ExitOnExhaustion::Blocked);
    let actions = svc.on_vpn_disconnected(std::slice::from_ref(&record), 5);
    match &actions[0] {
        FailoverAction::Exhausted { route, kill_switch, .. } => {
            assert_eq!(*route, TrafficRoute::Blocked);
            assert!(!*kill_switch);
        }
        _ => panic!("expected exhaustion"),
    }
}

#[test]
fn failover_advances_and_direct_exhaustion() {
    let mut svc = ExitFailoverService::new();
    let record = app(
        Some(AppExitConfig {
            routes: vec![TrafficRoute::WireGuard(1), TrafficRoute::Direct],
            on_exhaustion: ExitOnExhaustion::Direct,
        }),
        None,
    );
    let actions = svc.on_vpn_disconnected(std::slice::from_ref(&record), 1);
    match &actions[0] {
        FailoverAction::Advanced { from_index, to_index, route, failed_route, .. } => {
            assert_eq!((*from_index, *to_index), (0, 1));
            assert_eq!(*route, TrafficRoute::Direct);
            assert_eq!(*failed_route, TrafficRoute::WireGuard(1));
        }
        _ => panic!("expected advance"),
    }
    assert_eq!(svc.active_index(record.app_id), 1);
}

#[test]
fn enforcement_backend_round_trips() {
    for b in [EnforcementBackend::Signed, EnforcementBackend::CustomKernel] {
        assert_eq!(EnforcementBackend::parse(b.as_str()), b);
    }
    for m in [GuardianMode::Wfp, GuardianMode::Hybrid, GuardianMode::Ndis] {
        assert_eq!(GuardianMode::parse(m.as_str()), m);
    }
    assert_eq!(EnforcementBackend::parse("anything"), EnforcementBackend::Signed);
    assert!(GuardianMode::Ndis.uses_ndis());
    assert!(!GuardianMode::Wfp.uses_ndis());
}

#[test]
fn stored_and_legacy_backends() {
    assert_eq!(backend_from_stored("\"custom_kernel\""), EnforcementBackend::CustomKernel);
    assert_eq!(backend_from_stored("custom_kernel"), EnforcementBackend::CustomKernel);
    assert_eq!(backend_from_stored("\"signed\""), EnforcementBackend::Signed);
    assert_eq!(backend_from_legacy("hybrid", "userspace"), EnforcementBackend::CustomKernel);
    assert_eq!(backend_from_legacy("wfp", "kernel"), EnforcementBackend::CustomKernel);
    assert_eq!(backend_from_legacy("wfp", "userspace"), EnforcementBackend::Signed);
    let m = resolve_mapping(Some("\"custom_kernel\""), None).unwrap();
    assert_eq!(m.guardian_mode, GuardianMode::Hybrid);
    let s = apply_backend(EnforcementBackend::Signed);
    assert_eq!(s.guardian_mode, "wfp");
    assert_eq!(component_status(true, true), "not_used");
    assert_eq!(component_status(false, false), "unavailable");
    let after = enforcement_settings_after_change(EnforcementBackend::CustomKernel);
    assert!(after.restart_required);
    assert_eq!(after.wfp_engine_impl, "kernel");
    assert_eq!(EnforcementMapping::from_backend(EnforcementBackend::Signed).backend, EnforcementBackend::Signed);
}

#[test]
fn guardian_validation_outcomes() {
    let healthy = NdisHealthSummary { available: true, state: "running".to_string() };
    let ok = match validate(GuardianMode::Hybrid, Ok("g".to_string()), Ok("n".to_string()), &healthy) {
        Ok(v) => v,
        Err(_) => panic!("expected a healthy hybrid setup"),
    };
    assert_eq!(ok.0, GuardianMode::Hybrid);
    assert_eq!(ok.1.as_deref(), Some("g"));
    assert_eq!(ok.2.as_deref(), Some("n"));
    let missing = validate(GuardianMode::Hybrid, Err("absent".to_string()), Ok("n".to_string()), &healthy);
    let f = missing.err().unwrap();
    assert_eq!(f.driver, "guardian");
    assert_eq!(f.detail, "hybrid mode requires Guardian driver: absent");
    let sick = NdisHealthSummary { available: false, state: "error".to_string() };
    let f2 = validate(GuardianMode::Hybrid, Ok("g".to_string()), Ok("n".to_string()), &sick).err().unwrap();
    assert_eq!(f2.detail, "hybrid mode NDIS side unhealthy");
    let wfp = match validate(GuardianMode::Wfp, Err("x".to_string()), Err("y".to_string()), &sick) {
        Ok(v) => v,
        Err(_) => panic!("WFP mode needs no driver"),
    };
    assert_eq!(wfp.1, None);
    assert_eq!(wfp.2, None);
}

#[test]
fn digests_are_standard() {
    assert_eq!(sha256_hex(b"abc"), "ba7816bf8f01cfea414140de5dae2223b00361a396177a9cb410ff61f20015ad");
    assert_eq!(backup_checksum(b"abc"), "900150983cd24fb0d6963f7d28e17f72");
    let chunks = vec![b"a".to_vec(), b"bc".to_vec()];
    assert_eq!(sha256_hex_of_chunks(&chunks), sha256_hex(b"abc"));
    let mut s = StreamingSha256::new();
    s.update(b"ab");
    s.update(b"c");
    let hex = s.finalize_hex();
    assert_eq!(hex.len(), 64);
    assert_eq!(hex, sha256_hex(b"abc"));
}

#[test]
fn prometheus_exposition() {
    let snap = MetricsSnapshot {
        active_tunnels: 2,
        active_transports: 1,
        blocked_requests: 30,
        dns_queries: 400,
        open_leak_incidents: 0,
        route_changes_24h: 5,
        timestamp: 0,
    };
    let text = MetricsService::to_prometheus(&snap);
    assert!(text.starts_with("# HELP wiresentinel_active_tunnels Active VPN tunnels\n# TYPE wiresentinel_active_tunnels gauge\nwiresentinel_active_tunnels 2\n"));
    assert!(text.contains("wiresentinel_dns_queries 400\n"));
    assert!(text.ends_with("wiresentinel_route_changes_24h 5\n"));
}
