//! Optional cloud fleet telemetry (health) reporter.

use vstd::prelude::*;
use crate::cloud::{ReporterStart, cloud_endpoint, cloud_url, reporter_start, start};
use crate::ids::{uuid_text, uuid_to_string};
use crate::text::to_owned_string;

verus! {

pub fn default_interval_secs() -> (r: u64)
    ensures
        r == 120,
{
    120
}

pub struct CloudTelemetryReporterConfig {
    pub enabled: bool,
    pub cloud_url: String,
    pub tenant_id: Option<u128>,
    pub controller_id: Option<String>,
    pub interval_secs: u64,
    pub api_token: Option<String>,
}

impl CloudTelemetryReporterConfig {
    /// Disabled, no URL, tenant, controller or token, every 120 s.
    pub fn default_config() -> (r: CloudTelemetryReporterConfig)
        ensures
            !r.enabled,
            r.cloud_url@.len() == 0,
            r.tenant_id.is_none(),
            r.controller_id.is_none(),
            r.interval_secs == 120,
            r.api_token.is_none(),
    {
        CloudTelemetryReporterConfig {
            enabled: false,
            cloud_url: String::new(),
            tenant_id: None,
            controller_id: None,
            interval_secs: default_interval_secs(),
            api_token: None,
        }
    }
}

/// The fleet health a device reports (the capture time is stamped when it is sent).
pub struct CloudHealthPayload {
    pub tenant_id: String,
    pub controller_id: Option<String>,
    pub healthy: bool,
    pub reporting_devices: u32,
    pub healthy_devices: u32,
    pub kernel_devices: u32,
}

pub struct CloudTelemetryReporter;

impl CloudTelemetryReporter {
    pub fn settings_key() -> (r: &'static str)
        ensures
            r@ == "cloud_telemetry"@,
    {
        "cloud_telemetry"
    }

    /// How the reporter starts: every `max(interval, 30)` seconds.
    pub fn plan(config: &CloudTelemetryReporterConfig) -> (r: ReporterStart)
        ensures
            reporter_start(r, config.enabled, config.cloud_url@, config.tenant_id, config.interval_secs, 30),
    {
        start(config.enabled, &config.cloud_url, config.tenant_id, config.interval_secs, 30)
    }

    /// The payload of one tick. The tick takes two metric snapshots: the first
    /// (`open_leaks`, `None` where it failed) decides health, the second
    /// (`second_ok`) whether this device counts as reporting.
    pub fn health_payload(
        tenant_id: u128,
        controller_id: Option<&str>,
        open_leaks: Option<u32>,
        second_ok: bool,
    ) -> (r: CloudHealthPayload)
        ensures
            r.tenant_id@ == uuid_text(tenant_id),
            match controller_id {
                Some(c) => r.controller_id matches Some(x) && x@ == c@,
                None => r.controller_id.is_none(),
            },
            r.healthy == (open_leaks == Some(0u32)),
            r.reporting_devices == (if second_ok {
                1u32
            } else {
                0u32
            }),
            r.healthy_devices == (if r.healthy {
                r.reporting_devices
            } else {
                0u32
            }),
            r.kernel_devices == 0,
    {
        let healthy = match open_leaks {
            Some(n) => n == 0,
            None => false,
        };
        let reporting: u32 = if second_ok {
            1
        } else {
            0
        };
        CloudHealthPayload {
            tenant_id: uuid_to_string(tenant_id),
            controller_id: match controller_id {
                Some(c) => Some(to_owned_string(c)),
                None => None,
            },
            healthy,
            reporting_devices: reporting,
            healthy_devices: if healthy {
                reporting
            } else {
                0
            },
            kernel_devices: 0,
        }
    }

    /// `{base}/api/v1/cloud/health`.
    pub fn health_url(base: &str) -> (r: String)
        ensures
            r@ == cloud_url(base@, "health"@),
    {
        cloud_endpoint(base, "health")
    }
}

} // verus!
