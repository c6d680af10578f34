use core_service::cloud_sync::{CloudSyncConfig, SyncMode};
use core_service::domain_cache::DomainResolverCache;
use core_service::enforcement::{EnforcementBackend, EnforcementMapping, GuardianMode};
use core_service::exit_failover::ExitFailoverService;
use core_service::guardian::{guardian_mode_from_setting, validate, IntegrityEvent, NdisHealthSummary};
use core_service::paths::default_tor_data_dir;
use core_service::routing::{AppExitConfig, AppRecord, ExitOnExhaustion, TrafficRoute};

fn record(exe: &str, exit_config: Option<AppExitConfig>) -> AppRecord {
    AppRecord {
        app_id: uuid::Uuid::new_v4().as_u128(),
        exe_path: exe.to_string(),
        display_name: exe.to_string(),
        sha256: None,
        publisher: None,
        icon_path: None,
        last_seen: 0,
        exit_config,
        default_route: None,
    }
}

#[test]
fn default_tor_data_dir_contains_profile_id() {
    let id = uuid::Uuid::new_v4();
    let path = default_tor_data_dir(id.as_u128(), false, None);
    assert!(path.contains(&id.to_string()));
}

#[test]
fn cloud_sync_config_defaults() {
    let cfg = CloudSyncConfig::default_config();
    assert!(!cfg.enabled);
    assert_eq!(cfg.sync_mode, SyncMode::Pull);
    assert_eq!(cfg.interval_secs, 300);
}

#[test]
fn wildcard_matches_subdomain() {
    assert!(DomainResolverCache::matches_domain(
        "*.googlevideo.com",
        "r1---sn.googlevideo.com"
    ));
    assert!(!DomainResolverCache::matches_domain(
        "*.googlevideo.com",
        "example.com"
    ));
}

#[test]
fn record_and_resolve_ip() {
    let mut cache = DomainResolverCache::with_ttl(300);
    let app_id = uuid::Uuid::new_v4().as_u128();
    let now: i64 = 1_700_000_000_000;
    cache.record_dns(Some(app_id), "example.com", &["93.184.216.34"], now);
    let domain = cache.resolve_ip_to_domain(Some(app_id), "93.184.216.34", now + 1);
    assert_eq!(domain.as_deref(), Some("example.com"));
}

#[test]
fn signed_maps_to_userspace_wfp() {
    let m = EnforcementMapping::from_backend(EnforcementBackend::Signed);
    assert_eq!(m.guardian_mode, GuardianMode::Wfp);
    assert_eq!(m.wfp_engine_impl, "userspace");
    assert!(m.use_windivert);
}

#[test]
fn custom_kernel_maps_to_hybrid_kernel() {
    let m = EnforcementMapping::from_backend(EnforcementBackend::CustomKernel);
    assert_eq!(m.guardian_mode, GuardianMode::Hybrid);
    assert_eq!(m.wfp_engine_impl, "kernel");
    assert!(!m.use_windivert);
}

#[test]
fn resolve_active_route_uses_index_and_exhaustion_default() {
    let mut svc = ExitFailoverService::new();
    let profile_a = uuid::Uuid::new_v4().as_u128();
    let profile_b = uuid::Uuid::new_v4().as_u128();
    let record = record(
        "app.exe",
        Some(AppExitConfig {
            routes: vec![TrafficRoute::WireGuard(profile_a), TrafficRoute::WireGuard(profile_b)],
            on_exhaustion: ExitOnExhaustion::KillSwitch,
        }),
    );
    // The primary route's profile dropped: the app moves on to its second route.
    let actions = svc.on_vpn_disconnected(std::slice::from_ref(&record), profile_a);
    assert_eq!(actions.len(), 1);
    let (routes, index, route, on_exhaustion) = svc.resolve_active_route(&record);
    assert_eq!(routes.len(), 2);
    assert_eq!(index, 1);
    assert_eq!(route, Some(TrafficRoute::WireGuard(profile_b)));
    assert_eq!(on_exhaustion, ExitOnExhaustion::KillSwitch);
}

#[test]
fn reset_index_returns_to_primary_route() {
    let mut svc = ExitFailoverService::new();
    let profile_a = uuid::Uuid::new_v4().as_u128();
    let profile_b = uuid::Uuid::new_v4().as_u128();
    let profile_c = uuid::Uuid::new_v4().as_u128();
    let record = record(
        "app.exe",
        Some(AppExitConfig {
            routes: vec![
                TrafficRoute::WireGuard(profile_a),
                TrafficRoute::WireGuard(profile_b),
                TrafficRoute::WireGuard(profile_c),
            ],
            on_exhaustion: ExitOnExhaustion::Blocked,
        }),
    );
    svc.on_vpn_disconnected(std::slice::from_ref(&record), profile_a);
    svc.on_vpn_disconnected(std::slice::from_ref(&record), profile_b);
    assert_eq!(svc.active_index(record.app_id), 2);
    svc.reset_index(record.app_id);
    assert_eq!(svc.active_index(record.app_id), 0);
}

#[test]
fn publishes_integrity_events_when_ndis_required_but_missing() {
    let mode = guardian_mode_from_setting(Some("ndis"));
    let health = NdisHealthSummary { available: false, state: "stub".to_string() };
    let result = validate(
        mode,
        Ok("guardian present".to_string()),
        Err("ndis driver not installed".to_string()),
        &health,
    );
    assert!(result.is_err());
    let failure = result.err().unwrap();
    assert_eq!(failure.driver, "ndis");
    let events = failure.events();
    assert_eq!(events.len(), 2);
    assert!(matches!(
        &events[0],
        IntegrityEvent::DriverIntegrityFailure { driver, .. } if driver == "ndis"
    ));
    assert!(matches!(
        &events[1],
        IntegrityEvent::KernelSecurityViolation { violation_type, .. }
            if violation_type == "driver_integrity"
    ));
}
