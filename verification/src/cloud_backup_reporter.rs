//! Optional cloud backup / log batch reporter.

use vstd::prelude::*;
use crate::cloud::{ReporterStart, cloud_endpoint, cloud_url, is_v4, random_uuid, reporter_start, start};
use crate::ids::{uuid_text, uuid_to_string};
use crate::text::to_owned_string;

verus! {

pub struct CloudBackupReporterConfig {
    pub enabled: bool,
    pub cloud_url: String,
    pub tenant_id: Option<u128>,
    pub device_id: Option<String>,
    pub interval_secs: u64,
    pub api_token: Option<String>,
}

pub fn default_interval_secs() -> (r: u64)
    ensures
        r == 600,
{
    600
}

impl CloudBackupReporterConfig {
    /// Disabled, no URL, tenant, device or token, every 600 s.
    pub fn default_config() -> (r: CloudBackupReporterConfig)
        ensures
            !r.enabled,
            r.cloud_url@.len() == 0,
            r.tenant_id.is_none(),
            r.device_id.is_none(),
            r.interval_secs == 600,
            r.api_token.is_none(),
    {
        CloudBackupReporterConfig {
            enabled: false,
            cloud_url: String::new(),
            tenant_id: None,
            device_id: None,
            interval_secs: default_interval_secs(),
            api_token: None,
        }
    }
}

/// One entry of a cloud log batch.
pub struct CloudLogEntry {
    pub level: String,
    pub message: String,
    pub source: Option<String>,
    /// Fields of the entry: the backup bundle's version and export time.
    pub bundle_version: u32,
    pub exported_at: String,
}

/// A cloud log batch (the ingestion time is stamped when it is sent).
pub struct CloudLogBatch {
    pub tenant_id: String,
    pub controller_id: Option<String>,
    pub device_id: Option<String>,
    pub entries: Vec<CloudLogEntry>,
}

pub struct CloudBackupReporter;

impl CloudBackupReporter {
    pub fn settings_key() -> (r: &'static str)
        ensures
            r@ == "cloud_backup"@,
    {
        "cloud_backup"
    }

    /// How the reporter starts: every `max(interval, 120)` seconds.
    pub fn plan(config: &CloudBackupReporterConfig) -> (r: ReporterStart)
        ensures
            reporter_start(r, config.enabled, config.cloud_url@, config.tenant_id, config.interval_secs, 120),
    {
        start(config.enabled, &config.cloud_url, config.tenant_id, config.interval_secs, 120)
    }

    /// The device id the batches carry: the configured one, else `fresh` in
    /// hyphenated form.
    pub fn device_id_or(config: &CloudBackupReporterConfig, fresh: u128) -> (r: String)
        ensures
            match config.device_id {
                Some(d) => r@ == d@,
                None => r@ == uuid_text(fresh),
            },
    {
        match &config.device_id {
            Some(d) => d.clone(),
            None => uuid_to_string(fresh),
        }
    }

    /// The device id the batches carry: the configured one, else a new random
    /// identifier in hyphenated form.
    pub fn device_id(config: &CloudBackupReporterConfig) -> (r: String)
        ensures
            match config.device_id {
                Some(d) => r@ == d@,
                None => exists|x: u128| r@ == uuid_text(x) && is_v4(x),
            },
    {
        match &config.device_id {
            Some(d) => d.clone(),
            None => Self::device_id_or(config, random_uuid()),
        }
    }

    /// The batch of one tick: a single `info` entry "backup snapshot" from
    /// `cloud_backup_reporter` with the bundle's version and export time.
    pub fn log_batch(tenant_id: u128, device_id: &str, bundle_version: u32, exported_at: &str) -> (r: CloudLogBatch)
        ensures
            r.tenant_id@ == uuid_text(tenant_id),
            r.controller_id.is_none(),
            r.device_id matches Some(d) && d@ == device_id@,
            r.entries@.len() == 1,
            r.entries@[0].level@ == "info"@,
            r.entries@[0].message@ == "backup snapshot"@,
            r.entries@[0].source matches Some(s) && s@ == "cloud_backup_reporter"@,
            r.entries@[0].bundle_version == bundle_version,
            r.entries@[0].exported_at@ == exported_at@,
    {
        let entry = CloudLogEntry {
            level: String::from_str("info"),
            message: String::from_str("backup snapshot"),
            source: Some(String::from_str("cloud_backup_reporter")),
            bundle_version,
            exported_at: to_owned_string(exported_at),
        };
        let mut entries: Vec<CloudLogEntry> = Vec::new();
        entries.push(entry);
        CloudLogBatch {
            tenant_id: uuid_to_string(tenant_id),
            controller_id: None,
            device_id: Some(to_owned_string(device_id)),
            entries,
        }
    }

    /// `{base}/api/v1/cloud/logs`.
    pub fn logs_url(base: &str) -> (r: String)
        ensures
            r@ == cloud_url(base@, "logs"@),
    {
        cloud_endpoint(base, "logs")
    }
}

} // verus!
