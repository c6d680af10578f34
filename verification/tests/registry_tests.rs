use core_service::app_registry::{
    icon_path_for_exe, publisher_for_exe, reconcile_existing, unknown_exe_path, unresolvable_error, AppIdentity,
    AppRegistryService, PidLookup, TimedCache,
};
use core_service::error::ServiceError;
use core_service::logging::{files_to_prune, recent_entries, str_eq_ignore_ascii_case, LogEntry};
use core_service::paths::{
    config_dir, config_path, default_tor_data_dir, exe_dir, resolve_binary, resolve_singbox_exe, resolve_tor_exe,
    resources_dir, tunnels_dir, BinaryProbe, ConfigStore,
};
use core_service::routing::AppRecord;

fn record(app_id: u128, sha: Option<&str>, last_seen: i64) -> AppRecord {
    AppRecord {
        app_id,
        exe_path: "C:/Apps/tool.exe".to_string(),
        display_name: "tool".to_string(),
        sha256: sha.map(|s| s.to_string()),
        publisher: None,
        icon_path: None,
        last_seen,
        exit_config: None,
        default_route: None,
    }
}

fn entry(level: &str, message: &str) -> LogEntry {
    LogEntry { timestamp: 0, level: level.to_string(), target: "t".to_string(), message: message.to_string() }
}

#[test]
fn timed_cache_serves_until_expiry() {
    let mut c: TimedCache<u8> = TimedCache::new(1000, 4);
    c.insert(1, 10, 5_000);
    assert_eq!(c.get(1, 5_000), Some(&10));
    assert_eq!(c.get(1, 5_999), Some(&10));
    assert_eq!(c.get(1, 6_000), None);
    assert_eq!(c.get(2, 5_000), None);
    assert!(c.contains_fresh(1, 5_500));
    assert!(!c.contains_fresh(1, 7_000));
}

#[test]
fn full_timed_cache_drops_stale_entries_first() {
    let mut c: TimedCache<u8> = TimedCache::new(1000, 2);
    c.insert(1, 1, 0);
    c.insert(2, 2, 1_500);
    assert_eq!(c.len(), 2);
    // Full: the entry stored at 0 is stale at 2_000 and goes; the one at 1_500 stays.
    c.insert(3, 3, 2_000);
    assert_eq!(c.len(), 2);
    assert_eq!(c.get(2, 2_000), Some(&2));
    assert_eq!(c.get(3, 2_000), Some(&3));
    assert_eq!(c.get(1, 2_000), None);
}

#[test]
fn registry_lookup_and_invalidation() {
    let mut reg = AppRegistryService::new();
    assert!(matches!(reg.lookup(100, 0), PidLookup::Unknown));
    reg.remember_unresolvable(100, 0);
    assert!(matches!(reg.lookup(100, 29_999), PidLookup::Unresolvable));
    assert!(matches!(reg.lookup(100, 30_000), PidLookup::Unknown));
    reg.remember_identity(AppIdentity::new(200, record(7, None, 0)), 1_000);
    match reg.lookup(200, 60_999) {
        PidLookup::Cached(id) => {
            assert_eq!(id.pid, 200);
            assert_eq!(id.id(), 7);
        }
        _ => panic!("expected cached identity"),
    }
    assert!(matches!(reg.lookup(200, 61_000), PidLookup::Unknown));
    reg.remember_identity(AppIdentity::new(201, record(8, None, 0)), 1_000);
    reg.invalidate_app(7);
    assert!(matches!(reg.lookup(200, 2_000), PidLookup::Unknown));
    assert!(matches!(reg.lookup(201, 2_000), PidLookup::Cached(_)));
}

#[test]
fn hash_cache_checks_size_and_mtime() {
    let mut reg = AppRegistryService::new();
    reg.remember_sha256("C:/a.exe", 10, Some(99), "abc".to_string());
    assert_eq!(reg.cached_sha256("C:/a.exe", 10, Some(99)).as_deref(), Some("abc"));
    assert_eq!(reg.cached_sha256("C:/a.exe", 11, Some(99)), None);
    assert_eq!(reg.cached_sha256("C:/a.exe", 10, None), None);
    assert_eq!(reg.cached_sha256("C:/b.exe", 10, Some(99)), None);
    reg.remember_sha256("C:/a.exe", 11, Some(100), "def".to_string());
    assert_eq!(reg.cached_sha256("C:/a.exe", 11, Some(100)).as_deref(), Some("def"));
}

#[test]
fn identity_helpers() {
    assert_eq!(publisher_for_exe("/opt/app/tool.exe"), None);
    assert_eq!(icon_path_for_exe("/opt/app/tool.exe").as_deref(), Some("/opt/app/tool.ico"));
    assert_eq!(icon_path_for_exe("/opt/app/tool").as_deref(), Some("/opt/app/tool.ico"));
    assert_eq!(icon_path_for_exe("archive.tar.gz").as_deref(), Some("archive.tar.ico"));
    assert_eq!(unknown_exe_path(1234), "unknown-1234.exe");
    match unresolvable_error(77) {
        ServiceError::Other(m) => assert_eq!(m, "pid 77 unresolvable (cached)"),
        _ => panic!("expected other"),
    }
}

#[test]
fn reconciling_existing_records() {
    let now: i64 = 1_000_000_000;
    // No hash before, one now: updated, written, announced.
    let r = reconcile_existing(record(1, None, now - 10), Some("h".to_string()), "/x/tool.exe", now);
    assert!(r.upsert && r.publish_updated);
    assert_eq!(r.record.sha256.as_deref(), Some("h"));
    assert_eq!(r.record.icon_path.as_deref(), Some("/x/tool.ico"));
    assert_eq!(r.record.last_seen, now);
    // Known hash, seen recently: nothing to write.
    let r = reconcile_existing(record(1, Some("h"), now - 299_999), Some("h".to_string()), "/x/tool.exe", now);
    assert!(!r.upsert && !r.publish_updated);
    assert_eq!(r.record.last_seen, now - 299_999);
    // Known hash, stale: touched and written, not announced.
    let r = reconcile_existing(record(1, Some("h"), now - 300_000), Some("h2".to_string()), "/x/tool.exe", now);
    assert!(r.upsert && !r.publish_updated);
    assert_eq!(r.record.sha256.as_deref(), Some("h"));
    assert_eq!(r.record.last_seen, now);
}

#[test]
fn recent_logs_filter_and_limit() {
    let ring = vec![entry("INFO", "a"), entry("warn", "b"), entry("info", "c"), entry("Info", "d"), entry("error", "e")];
    let got: Vec<String> = recent_entries(&ring, 2, Some("info")).into_iter().map(|e| e.message).collect();
    assert_eq!(got, vec!["c".to_string(), "d".to_string()]);
    let all: Vec<String> = recent_entries(&ring, 10, None).into_iter().map(|e| e.message).collect();
    assert_eq!(all.len(), 5);
    assert_eq!(all[0], "a");
    assert!(recent_entries(&ring, 0, None).is_empty());
    assert!(str_eq_ignore_ascii_case("WaRn", "warn"));
    assert!(!str_eq_ignore_ascii_case("warn", "warning"));
}

#[test]
fn pruning_removes_the_oldest_files() {
    let files = vec![
        (30i128, "c.log".to_string()),
        (10i128, "a.log".to_string()),
        (20i128, "b.log".to_string()),
        (10i128, "a2.log".to_string()),
    ];
    assert_eq!(files_to_prune(&files, 2), vec!["a.log".to_string(), "a2.log".to_string()]);
    assert_eq!(files_to_prune(&files, 3), vec!["a.log".to_string()]);
    assert!(files_to_prune(&files, 4).is_empty());
    assert!(files_to_prune(&files, 0).is_empty());
}

#[test]
fn binary_resolution_order() {
    let probe = BinaryProbe {
        exe_dir: "/opt/ws".to_string(),
        resources_is_dir: true,
        in_resources_exists: false,
        beside_exe_exists: true,
        override_exists: true,
        env_exists: true,
    };
    assert_eq!(resolve_binary("tor.exe", None, Some("/custom/tor"), &probe), "/custom/tor");
    assert_eq!(resolve_binary("tor.exe", Some("/env/tor"), Some("/custom/tor"), &probe), "/custom/tor");
    assert_eq!(resolve_binary("tor.exe", Some("/env/tor"), None, &probe), "/env/tor");
    assert_eq!(resolve_tor_exe(None, None, &probe), "/opt/ws/tor.exe");
    let probe2 = BinaryProbe { beside_exe_exists: false, ..probe };
    assert_eq!(resolve_singbox_exe(None, None, &probe2), "/opt/ws/resources/sing-box.exe");
    assert_eq!(resources_dir("/opt/ws", false), "/opt/ws");
    assert_eq!(resources_dir("/opt/ws", true), "/opt/ws/resources");
    assert_eq!(exe_dir(None), ".");
    assert_eq!(core_service::paths::singbox_env_var(), "WIRESENTINEL_SINGBOX_EXE");
    assert_eq!(core_service::paths::tor_env_var(), "WIRESENTINEL_TOR_EXE");
}

#[test]
fn missing_override_and_env_fall_through_to_existing_binary() {
    let probe = BinaryProbe {
        exe_dir: "/opt/ws".to_string(),
        resources_is_dir: true,
        in_resources_exists: true,
        beside_exe_exists: true,
        override_exists: false,
        env_exists: false,
    };
    assert_eq!(
        resolve_binary("tor.exe", Some("/env/tor"), Some("/custom/tor"), &probe),
        "/opt/ws/resources/tor.exe"
    );
    let env_only = BinaryProbe { env_exists: true, ..probe };
    assert_eq!(resolve_binary("tor.exe", Some("/env/tor"), Some("/custom/tor"), &env_only), "/env/tor");
    let nothing = BinaryProbe {
        exe_dir: "/opt/ws".to_string(),
        resources_is_dir: false,
        in_resources_exists: false,
        beside_exe_exists: false,
        override_exists: false,
        env_exists: false,
    };
    assert_eq!(resolve_singbox_exe(Some("/x/sb"), None, &nothing), "/opt/ws/sing-box.exe");
}

#[test]
fn configuration_paths() {
    assert_eq!(config_dir(false, None), "/tmp/WireSentinel");
    assert_eq!(config_dir(true, None), "C:\\ProgramData\\WireSentinel");
    let dir = config_dir(false, None);
    assert_eq!(config_path(&dir), "/tmp/WireSentinel/config.json");
    assert_eq!(tunnels_dir(&dir), "/tmp/WireSentinel/tunnels");
    assert_eq!(ConfigStore::tunnel_file_name("home"), "home.conf.dpapi");
    assert_eq!(ConfigStore::tunnel_config_path("/tmp/WireSentinel/tunnels", "home"), "/tmp/WireSentinel/tunnels/home.conf.dpapi");
    let id = 0xabcdefu128;
    assert_eq!(
        default_tor_data_dir(id, false, None),
        format!("/tmp/WireSentinel/tor/{}", uuid::Uuid::from_u128(id))
    );
}
