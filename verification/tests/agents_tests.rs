use core_service::cloud::{base_of, bearer_value, is_blank, join_id, ReporterStart};
use core_service::cloud_backup_reporter::{CloudBackupReporter, CloudBackupReporterConfig};
use core_service::cloud_sync::{
    apply_cloud_auth, pull_url, pulled_body_has_bundle, push_url, round_event, settings_key, CloudSyncAgent,
    CloudSyncConfig, SyncEvent, SyncMode, SyncStart,
};
use core_service::cloud_telemetry_reporter::{CloudTelemetryReporter, CloudTelemetryReporterConfig};
use core_service::cloud_usage_reporter::{CloudUsageReporter, CloudUsageReporterConfig};
use core_service::controller_agent::{
    default_device_name, default_heartbeat_secs, default_policy_pull_secs, heartbeat_pushes, policy_version_label,
    push_url as agent_push_url, register_url, AgentStart, ControllerAgent, ControllerAgentConfig, HeartbeatPush,
};
use core_service::enterprise::{default_policy, LocalPolicyProvider, RemotePolicyBundle, RemotePolicyProvider};

fn agent_config(url: &str) -> ControllerAgentConfig {
    let mut c = ControllerAgentConfig::default_with_name("host-1".to_string());
    c.enabled = true;
    c.controller_url = url.to_string();
    c
}

#[test]
fn sync_plan_modes_and_floor() {
    let mut cfg = CloudSyncConfig::default_config();
    assert!(matches!(CloudSyncAgent::plan(&cfg), SyncStart::Disabled));
    cfg.enabled = true;
    cfg.cloud_url = "https://cloud.example/".to_string();
    assert!(matches!(CloudSyncAgent::plan(&cfg), SyncStart::MissingTenant));
    cfg.tenant_id = Some(9);
    assert!(matches!(CloudSyncAgent::plan(&cfg), SyncStart::NeedsDeviceId));
    let cfg = CloudSyncAgent::assign_new_device_id(cfg);
    let device = cfg.device_id.clone().unwrap();
    assert!(uuid::Uuid::parse_str(&device).is_ok());
    let mut cfg = cfg;
    cfg.interval_secs = 10;
    cfg.sync_mode = SyncMode::Bidirectional;
    match CloudSyncAgent::plan(&cfg) {
        SyncStart::Ready(p) => {
            assert_eq!(p.base, "https://cloud.example");
            assert_eq!(p.interval_secs, 60);
            assert!(p.push && p.pull);
            assert_eq!(p.device_id, device);
        }
        _ => panic!("expected a ready plan"),
    }
    cfg.sync_mode = SyncMode::Push;
    match CloudSyncAgent::plan(&cfg) {
        SyncStart::Ready(p) => assert!(p.push && !p.pull),
        _ => panic!("expected a ready plan"),
    }
    assert_eq!(settings_key(), "cloud_sync");
}

#[test]
fn sync_urls_and_headers() {
    let tenant = 0x11u128;
    let t = uuid::Uuid::from_u128(tenant).to_string();
    assert_eq!(push_url("https://c", tenant, "dev"), format!("https://c/api/v1/tenants/{t}/devices/dev/sync/push"));
    assert_eq!(pull_url("https://c", tenant, "dev"), format!("https://c/api/v1/tenants/{t}/devices/dev/sync/pull"));
    let h = apply_cloud_auth(tenant, Some("tok"));
    assert_eq!(h.len(), 2);
    assert_eq!(h[0].name, "X-Tenant-Id");
    assert_eq!(h[0].value, t);
    assert_eq!(h[1].value, "Bearer tok");
    assert_eq!(apply_cloud_auth(tenant, Some("")).len(), 1);
    assert_eq!(apply_cloud_auth(tenant, None).len(), 1);
    assert!(!pulled_body_has_bundle("  \n\t"));
    assert!(pulled_body_has_bundle(" {} "));
    assert!(is_blank(""));
    assert_eq!(bearer_value("x"), "Bearer x");
    assert_eq!(base_of("http://a//"), "http://a");
    assert_eq!(join_id("a/", 1, "/b"), format!("a/{}/b", uuid::Uuid::from_u128(1)));
}

#[test]
fn sync_round_events() {
    match round_event(3, SyncMode::Pull, Ok(())) {
        SyncEvent::ControllerSynced { controller_id, sync_mode } => {
            assert_eq!(controller_id, 3);
            assert_eq!(sync_mode, SyncMode::Pull);
        }
        _ => panic!("expected synced"),
    }
    match round_event(3, SyncMode::Push, Err("timeout".to_string())) {
        SyncEvent::ControllerDisconnected { reason, .. } => assert_eq!(reason, "timeout"),
        _ => panic!("expected disconnected"),
    }
    match CloudSyncAgent::shutdown_event(4) {
        SyncEvent::ControllerDisconnected { controller_id, reason } => {
            assert_eq!(controller_id, 4);
            assert_eq!(reason, "shutdown");
        }
        _ => panic!("expected disconnected"),
    }
    match CloudSyncAgent::registered_event(4, "https://c") {
        SyncEvent::ControllerRegistered { url, .. } => assert_eq!(url, "https://c"),
        _ => panic!("expected registered"),
    }
}

#[test]
fn controller_defaults() {
    assert_eq!(default_heartbeat_secs(), 60);
    assert_eq!(default_policy_pull_secs(), 300);
    assert_eq!(default_device_name(Some("PC"), Some("host")), "PC");
    assert_eq!(default_device_name(None, Some("host")), "host");
    assert_eq!(default_device_name(None, None), "wiresentinel-core");
    let c = ControllerAgentConfig::default_with_name("n".to_string());
    assert!(!c.enabled);
    assert_eq!(c.heartbeat_interval_secs, 60);
    assert_eq!(c.policy_pull_interval_secs, 300);
}

#[test]
fn controller_start_decisions() {
    assert!(matches!(ControllerAgent::plan(&agent_config("")), AgentStart::Disabled));
    let c = agent_config("https://ctl.example/");
    assert!(matches!(ControllerAgent::plan(&c), AgentStart::NoCredentials));
    let mut c = c;
    c.enrollment_token = Some("tok".to_string());
    match ControllerAgent::plan(&c) {
        AgentStart::Enroll { base, token, name } => {
            assert_eq!(base, "https://ctl.example");
            assert_eq!(token, "tok");
            assert_eq!(name, "host-1");
        }
        _ => panic!("expected enrollment"),
    }
    c.heartbeat_interval_secs = 5;
    c.policy_pull_interval_secs = 5;
    let (c2, plan) = ControllerAgent::after_enrollment(c, Some("dev-1".to_string()));
    assert_eq!(c2.device_id.as_deref(), Some("dev-1"));
    let plan = plan.unwrap();
    assert_eq!(plan.heartbeat_secs, 15);
    assert_eq!(plan.policy_pull_secs, 60);
    assert!(matches!(ControllerAgent::plan(&c2), AgentStart::Ready(_)));
    let (c3, none) = ControllerAgent::after_enrollment(agent_config("https://x"), None);
    assert!(none.is_none());
    assert!(c3.device_id.is_none());
}

#[test]
fn enrollment_event_needs_a_uuid() {
    let id = uuid::Uuid::new_v4();
    let e = ControllerAgent::enrolled_event(&id.to_string(), "pc").unwrap();
    assert_eq!(e.agent_id, id.as_u128());
    assert_eq!(e.name, "pc");
    assert!(ControllerAgent::enrolled_event("not-a-uuid", "pc").is_none());
}

#[test]
fn heartbeat_requests_and_urls() {
    let mut c = agent_config("https://ctl");
    c.device_id = Some("d1".to_string());
    c.push_kernel_heartbeat = true;
    c.push_ztna_heartbeat = true;
    c.push_sse_telemetry = true;
    let plan = match ControllerAgent::plan(&c) {
        AgentStart::Ready(p) => p,
        _ => panic!("expected ready"),
    };
    assert_eq!(
        heartbeat_pushes(&plan, true, false, true),
        vec![HeartbeatPush::Heartbeat, HeartbeatPush::Metrics, HeartbeatPush::Kernel, HeartbeatPush::Sse]
    );
    assert_eq!(heartbeat_pushes(&plan, false, false, false), vec![HeartbeatPush::Heartbeat, HeartbeatPush::Kernel]);
    assert_eq!(agent_push_url("https://ctl", "d1", HeartbeatPush::Heartbeat), "https://ctl/api/v1/devices/d1/heartbeat");
    assert_eq!(agent_push_url("https://ctl", "d1", HeartbeatPush::Metrics), "https://ctl/api/v1/agents/d1/metrics");
    assert_eq!(agent_push_url("https://ctl", "d1", HeartbeatPush::Sse), "https://ctl/api/v1/agents/d1/sse/telemetry");
    assert_eq!(
        agent_push_url("https://ctl", "d1", HeartbeatPush::Anonymity),
        "https://ctl/api/v1/agents/d1/anonymity/heartbeat"
    );
    assert_eq!(register_url("https://ctl"), "https://ctl/api/v1/devices/register");
    assert_eq!(policy_version_label(42), "v42");
}

#[test]
fn reporters_start_with_floors() {
    let mut b = CloudBackupReporterConfig::default_config();
    assert_eq!(b.interval_secs, 600);
    assert!(matches!(CloudBackupReporter::plan(&b), ReporterStart::Disabled));
    b.enabled = true;
    b.cloud_url = "https://c/".to_string();
    assert!(matches!(CloudBackupReporter::plan(&b), ReporterStart::MissingTenant));
    b.tenant_id = Some(1);
    b.interval_secs = 5;
    match CloudBackupReporter::plan(&b) {
        ReporterStart::Ready { base, interval_secs, .. } => {
            assert_eq!(base, "https://c");
            assert_eq!(interval_secs, 120);
        }
        _ => panic!("expected ready"),
    }
    let mut t = CloudTelemetryReporterConfig::default_config();
    assert_eq!(t.interval_secs, 120);
    t.enabled = true;
    t.cloud_url = "u".to_string();
    t.tenant_id = Some(1);
    t.interval_secs = 1;
    assert!(matches!(CloudTelemetryReporter::plan(&t), ReporterStart::Ready { interval_secs: 30, .. }));
    let mut u = CloudUsageReporterConfig::default_config();
    assert_eq!(u.interval_secs, 300);
    u.enabled = true;
    u.cloud_url = "u".to_string();
    u.tenant_id = Some(1);
    u.interval_secs = 1000;
    assert!(matches!(CloudUsageReporter::plan(&u), ReporterStart::Ready { interval_secs: 1000, .. }));
    assert_eq!(core_service::cloud_backup_reporter::default_interval_secs(), 600);
    assert_eq!(core_service::cloud_telemetry_reporter::default_interval_secs(), 120);
    assert_eq!(core_service::cloud_usage_reporter::default_interval_secs(), 300);
}

#[test]
fn reporter_payloads() {
    let mut b = CloudBackupReporterConfig::default_config();
    assert_eq!(CloudBackupReporter::device_id_or(&b, 5), uuid::Uuid::from_u128(5).to_string());
    assert!(uuid::Uuid::parse_str(&CloudBackupReporter::device_id(&b)).is_ok());
    b.device_id = Some("mine".to_string());
    assert_eq!(CloudBackupReporter::device_id(&b), "mine");
    let batch = CloudBackupReporter::log_batch(2, "mine", 1, "2024-01-01T00:00:00Z");
    assert_eq!(batch.tenant_id, uuid::Uuid::from_u128(2).to_string());
    assert_eq!(batch.entries.len(), 1);
    assert_eq!(batch.entries[0].message, "backup snapshot");
    assert_eq!(batch.entries[0].source.as_deref(), Some("cloud_backup_reporter"));
    assert_eq!(CloudBackupReporter::logs_url("https://c"), "https://c/api/v1/cloud/logs");
    let h = CloudTelemetryReporter::health_payload(2, Some("ctl"), Some(0), true);
    assert!(h.healthy);
    assert_eq!((h.reporting_devices, h.healthy_devices, h.kernel_devices), (1, 1, 0));
    let h = CloudTelemetryReporter::health_payload(2, None, Some(3), true);
    assert!(!h.healthy);
    assert_eq!(h.healthy_devices, 0);
    let h = CloudTelemetryReporter::health_payload(2, None, None, false);
    assert_eq!(h.reporting_devices, 0);
    assert_eq!(CloudTelemetryReporter::health_url("x"), "x/api/v1/cloud/health");
    let s = CloudUsageReporter::usage_samples(u64::MAX, 10);
    assert_eq!(s[0].metric, "bandwidth_bytes");
    assert_eq!(s[0].quantity, u64::MAX as u128 + 10);
    assert_eq!(s[1].quantity, 1);
    assert_eq!(s[2].quantity, 10);
    assert_eq!(CloudUsageReporter::usage_url("x"), "x/api/v1/cloud/usage");
    assert_eq!(CloudUsageReporter::settings_key(), "cloud_usage");
}

#[test]
fn enterprise_policies() {
    let p = default_policy(1, 100);
    assert_eq!(p.version, 1);
    assert_eq!(p.policy_json, "{}");
    let mut local = LocalPolicyProvider::new();
    assert!(!local.is_locked("dns"));
    let bundle = RemotePolicyBundle {
        device_id: "d".to_string(),
        policy_json: "{\"a\":1}".to_string(),
        locked_keys: vec!["dns".to_string(), "kill_switch".to_string()],
        version: 0,
    };
    let policy = RemotePolicyProvider::policy_from_bundle(&bundle, 7, 100);
    assert_eq!(policy.version, 1);
    assert_eq!(policy.locked_keys, vec!["dns".to_string(), "kill_switch".to_string()]);
    local.adopt(&policy);
    assert!(local.is_locked("dns"));
    assert!(!local.is_locked("DNS"));
    let remote = RemotePolicyProvider::new("https://ctl/", "dev".to_string());
    assert_eq!(remote.policy_url(), "https://ctl/api/v1/policies/devices/dev");
    let bundle5 = RemotePolicyBundle { version: 5, ..bundle };
    assert_eq!(RemotePolicyProvider::policy_from_bundle(&bundle5, 7, 100).version, 5);
}
