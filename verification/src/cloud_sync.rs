//! Optional cloud configuration sync via backup bundle push/pull.

use vstd::prelude::*;
use crate::cloud::{Header, is_v4, base_of, base_url, bearer_value, is_blank, is_unicode_space, join3, random_uuid};
use crate::ids::{uuid_text, uuid_to_string};

verus! {

/// Settings key of the configuration.
pub fn settings_key() -> (r: &'static str)
    ensures
        r@ == "cloud_sync"@,
{
    "cloud_sync"
}

/// Direction of the sync.
#[derive(Debug, Clone, Copy, PartialEq, Eq, Structural)]
pub enum SyncMode {
    Push,
    Pull,
    Bidirectional,
}

impl SyncMode {
    pub fn default_mode() -> (r: SyncMode)
        ensures
            r == SyncMode::Pull,
    {
        SyncMode::Pull
    }
}

pub struct CloudSyncConfig {
    pub enabled: bool,
    pub cloud_url: String,
    pub tenant_id: Option<u128>,
    pub device_id: Option<String>,
    pub sync_mode: SyncMode,
    pub interval_secs: u64,
    pub api_token: Option<String>,
}

pub fn default_sync_interval_secs() -> (r: u64)
    ensures
        r == 300,
{
    300
}

impl CloudSyncConfig {
    /// Disabled, no URL, tenant, device or token, pull mode, every 300 s.
    pub fn default_config() -> (r: CloudSyncConfig)
        ensures
            !r.enabled,
            r.cloud_url@.len() == 0,
            r.tenant_id.is_none(),
            r.device_id.is_none(),
            r.sync_mode == SyncMode::Pull,
            r.interval_secs == 300,
            r.api_token.is_none(),
    {
        CloudSyncConfig {
            enabled: false,
            cloud_url: String::new(),
            tenant_id: None,
            device_id: None,
            sync_mode: SyncMode::default_mode(),
            interval_secs: default_sync_interval_secs(),
            api_token: None,
        }
    }
}

/// What one sync round does and where.
pub struct SyncPlan {
    pub base: String,
    pub tenant_id: u128,
    pub device_id: String,
    pub interval_secs: u64,
    pub push: bool,
    pub pull: bool,
}

/// How the sync task starts.
pub enum SyncStart {
    /// Not enabled, or no cloud URL: no task.
    Disabled,
    /// Enabled without a tenant: the task stops with a warning.
    MissingTenant,
    /// A device id must be assigned (and persisted) first.
    NeedsDeviceId,
    Ready(SyncPlan),
}

pub struct CloudSyncAgent;

impl CloudSyncAgent {
    /// How the sync task starts for `config`: rounds every
    /// `max(interval, 60)` seconds, pushing in push and bidirectional mode,
    /// pulling in pull and bidirectional mode.
    pub fn plan(config: &CloudSyncConfig) -> (r: SyncStart)
        ensures
            !config.enabled || config.cloud_url@.len() == 0 ==> r is Disabled,
            config.enabled && config.cloud_url@.len() > 0 ==> match config.tenant_id {
                None => r is MissingTenant,
                Some(t) => match config.device_id {
                    None => r is NeedsDeviceId,
                    Some(d) => r matches SyncStart::Ready(p) && p.base@ == base_url(config.cloud_url@)
                        && p.tenant_id == t && p.device_id@ == d@ && p.interval_secs == (if config.interval_secs
                        < 60 {
                        60
                    } else {
                        config.interval_secs
                    }) && p.push == (config.sync_mode != SyncMode::Pull) && p.pull == (config.sync_mode
                        != SyncMode::Push),
                },
            },
    {
        if !config.enabled || config.cloud_url.as_str().unicode_len() == 0 {
            return SyncStart::Disabled;
        }
        let tenant_id = match config.tenant_id {
            Some(t) => t,
            None => return SyncStart::MissingTenant,
        };
        let device_id = match &config.device_id {
            Some(d) => d.clone(),
            None => return SyncStart::NeedsDeviceId,
        };
        let interval_secs = if config.interval_secs < 60 { 60 } else { config.interval_secs };
        let (push, pull) = match config.sync_mode {
            SyncMode::Push => (true, false),
            SyncMode::Pull => (false, true),
            SyncMode::Bidirectional => (true, true),
        };
        SyncStart::Ready(
            SyncPlan { base: base_of(config.cloud_url.as_str()), tenant_id, device_id, interval_secs, push, pull },
        )
    }

    /// The configuration with a newly assigned device id (to persist).
    pub fn assign_device_id(config: CloudSyncConfig, device_id: String) -> (r: CloudSyncConfig)
        ensures
            r.device_id matches Some(d) && d@ == device_id@,
            r.enabled == config.enabled,
            r.cloud_url@ == config.cloud_url@,
            r.tenant_id == config.tenant_id,
            r.sync_mode == config.sync_mode,
            r.interval_secs == config.interval_secs,
            r.api_token == config.api_token,
    {
        CloudSyncConfig { device_id: Some(device_id), ..config }
    }

    /// The configuration with a new random device id in hyphenated form.
    pub fn assign_new_device_id(config: CloudSyncConfig) -> (r: CloudSyncConfig)
        ensures
            r.device_id matches Some(d) && exists|x: u128| d@ == uuid_text(x) && is_v4(x),
            r.enabled == config.enabled,
            r.cloud_url@ == config.cloud_url@,
            r.tenant_id == config.tenant_id,
            r.sync_mode == config.sync_mode,
            r.interval_secs == config.interval_secs,
            r.api_token == config.api_token,
    {
        let id = uuid_to_string(random_uuid());
        Self::assign_device_id(config, id)
    }

    /// Event published when the sync task starts: the tenant registered at the
    /// base URL.
    pub fn registered_event(tenant_id: u128, base: &str) -> (r: SyncEvent)
        ensures
            r matches SyncEvent::ControllerRegistered { controller_id, url } && controller_id == tenant_id
                && url@ == base@,
    {
        SyncEvent::ControllerRegistered { controller_id: tenant_id, url: String::from_str(base) }
    }

    /// Event published when the sync task stops on shutdown.
    pub fn shutdown_event(tenant_id: u128) -> (r: SyncEvent)
        ensures
            r matches SyncEvent::ControllerDisconnected { controller_id, reason } && controller_id == tenant_id
                && reason@ == "shutdown"@,
    {
        SyncEvent::ControllerDisconnected { controller_id: tenant_id, reason: String::from_str("shutdown") }
    }
}

/// `{base}/api/v1/tenants/{tenant}/devices/{device}/sync/{push|pull}`.
pub open spec fn sync_url(base: Seq<char>, tenant_id: u128, device_id: Seq<char>, push: bool) -> Seq<char> {
    base + "/api/v1/tenants/"@ + uuid_text(tenant_id) + "/devices/"@ + device_id + (if push {
        "/sync/push"@
    } else {
        "/sync/pull"@
    })
}

pub fn push_url(base: &str, tenant_id: u128, device_id: &str) -> (r: String)
    ensures
        r@ == sync_url(base@, tenant_id, device_id@, true),
{
    let mut s = join3(base, "/api/v1/tenants/", uuid_to_string(tenant_id).as_str());
    s.append("/devices/");
    s.append(device_id);
    s.append("/sync/push");
    s
}

pub fn pull_url(base: &str, tenant_id: u128, device_id: &str) -> (r: String)
    ensures
        r@ == sync_url(base@, tenant_id, device_id@, false),
{
    let mut s = join3(base, "/api/v1/tenants/", uuid_to_string(tenant_id).as_str());
    s.append("/devices/");
    s.append(device_id);
    s.append("/sync/pull");
    s
}

/// Headers of a cloud request: the tenant, and the bearer token when one is set
/// and not empty.
pub fn apply_cloud_auth(tenant_id: u128, api_token: Option<&str>) -> (r: Vec<Header>)
    ensures
        r@.len() >= 1,
        r@[0].name@ == "X-Tenant-Id"@,
        r@[0].value@ == uuid_text(tenant_id),
        match api_token {
            Some(t) if t@.len() > 0 => r@.len() == 2 && r@[1].name@ == "Authorization"@ && r@[1].value@ == "Bearer "@
                + t@,
            _ => r@.len() == 1,
        },
{
    let mut headers: Vec<Header> = Vec::new();
    headers.push(Header { name: String::from_str("X-Tenant-Id"), value: uuid_to_string(tenant_id) });
    if let Some(t) = api_token {
        if t.unicode_len() > 0 {
            headers.push(Header { name: String::from_str("Authorization"), value: bearer_value(t) });
        }
    }
    headers
}

/// Whether a pulled body holds a bundle to import (it is not blank).
pub fn pulled_body_has_bundle(body: &str) -> (r: bool)
    ensures
        r == exists|i: int| 0 <= i < body@.len() && !is_unicode_space(#[trigger] body@[i]),
{
    !is_blank(body)
}

/// Event published by the sync task.
pub enum SyncEvent {
    ControllerRegistered { controller_id: u128, url: String },
    ControllerSynced { controller_id: u128, sync_mode: SyncMode },
    ControllerDisconnected { controller_id: u128, reason: String },
}

/// Event for the outcome of a push or pull: synced, or disconnected with the error.
pub fn round_event(tenant_id: u128, mode: SyncMode, outcome: Result<(), String>) -> (r: SyncEvent)
    ensures
        match outcome {
            Ok(()) => r == SyncEvent::ControllerSynced { controller_id: tenant_id, sync_mode: mode },
            Err(e) => r matches SyncEvent::ControllerDisconnected { controller_id, reason } && controller_id
                == tenant_id && reason@ == e@,
        },
{
    match outcome {
        Ok(()) => SyncEvent::ControllerSynced { controller_id: tenant_id, sync_mode: mode },
        Err(e) => SyncEvent::ControllerDisconnected { controller_id: tenant_id, reason: e },
    }
}

} // verus!
