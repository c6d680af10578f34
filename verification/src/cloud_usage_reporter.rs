//! Optional cloud usage metering reporter.

use vstd::prelude::*;
use crate::cloud::{ReporterStart, cloud_endpoint, cloud_url, reporter_start, start};

verus! {

pub fn default_interval_secs() -> (r: u64)
    ensures
        r == 300,
{
    300
}

pub struct CloudUsageReporterConfig {
    pub enabled: bool,
    pub cloud_url: String,
    pub tenant_id: Option<u128>,
    pub device_id: Option<String>,
    pub interval_secs: u64,
    pub api_token: Option<String>,
}

impl CloudUsageReporterConfig {
    /// Disabled, no URL, tenant, device or token, every 300 s.
    pub fn default_config() -> (r: CloudUsageReporterConfig)
        ensures
            !r.enabled,
            r.cloud_url@.len() == 0,
            r.tenant_id.is_none(),
            r.device_id.is_none(),
            r.interval_secs == 300,
            r.api_token.is_none(),
    {
        CloudUsageReporterConfig {
            enabled: false,
            cloud_url: String::new(),
            tenant_id: None,
            device_id: None,
            interval_secs: default_interval_secs(),
            api_token: None,
        }
    }
}

/// One metered quantity of a window.
pub struct UsageSample {
    pub metric: String,
    pub quantity: u128,
}

pub struct CloudUsageReporter;

impl CloudUsageReporter {
    pub fn settings_key() -> (r: &'static str)
        ensures
            r@ == "cloud_usage"@,
    {
        "cloud_usage"
    }

    /// How the reporter starts: every `max(interval, 60)` seconds.
    pub fn plan(config: &CloudUsageReporterConfig) -> (r: ReporterStart)
        ensures
            reporter_start(r, config.enabled, config.cloud_url@, config.tenant_id, config.interval_secs, 60),
    {
        start(config.enabled, &config.cloud_url, config.tenant_id, config.interval_secs, 60)
    }

    /// The quantities of one window, in order: `bandwidth_bytes` (blocked
    /// requests plus DNS queries), `active_devices` (one) and `dns_queries`.
    pub fn usage_samples(blocked_requests: u64, dns_queries: u64) -> (r: Vec<UsageSample>)
        ensures
            r@.len() == 3,
            r@[0].metric@ == "bandwidth_bytes"@,
            r@[0].quantity == blocked_requests + dns_queries,
            r@[1].metric@ == "active_devices"@,
            r@[1].quantity == 1,
            r@[2].metric@ == "dns_queries"@,
            r@[2].quantity == dns_queries,
    {
        let mut v: Vec<UsageSample> = Vec::new();
        v.push(
            UsageSample {
                metric: String::from_str("bandwidth_bytes"),
                quantity: blocked_requests as u128 + dns_queries as u128,
            },
        );
        v.push(UsageSample { metric: String::from_str("active_devices"), quantity: 1 });
        v.push(UsageSample { metric: String::from_str("dns_queries"), quantity: dns_queries as u128 });
        v
    }

    /// `{base}/api/v1/cloud/usage`.
    pub fn usage_url(base: &str) -> (r: String)
        ensures
            r@ == cloud_url(base@, "usage"@),
    {
        cloud_endpoint(base, "usage")
    }
}

} // verus!
