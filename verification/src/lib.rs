//! Verified decision logic of the WireSentinel core service: domain caching,
//! exit-route failover, enforcement backend mapping, security policies, leak
//! classification, privacy scoring and the planning side of the cloud agents.

pub mod text;
pub mod error;
pub mod middleware;
pub mod ids;
pub mod domain_cache;
pub mod routing;
pub mod exit_failover;
pub mod enforcement;
pub mod security_policy;
pub mod guardian;
pub mod leak;
pub mod privacy;
pub mod digest;
pub mod metrics;
pub mod cloud;
pub mod cloud_sync;
pub mod controller_agent;
pub mod cloud_backup_reporter;
pub mod cloud_telemetry_reporter;
pub mod cloud_usage_reporter;
pub mod app_registry;
pub mod enterprise;
pub mod logging;
pub mod paths;
pub mod kernel_api;
pub mod performance;
pub mod benchmark;
pub mod hot_settings;
pub mod auth;
pub mod anonymous_routing;
pub mod cover_traffic;
pub mod backup;
pub mod api_types;
pub mod anonymity;
pub mod anonymity_entropy;
pub mod mixnet;
pub mod orchestrator;
pub mod json;
pub mod audit;
pub mod diagnostics;
pub mod fault_injection;
pub mod anonymity_decoy;
pub mod plugins;
pub mod kernel_route_bridge;
pub mod correlation;
pub mod records;
pub mod privacy_analytics;
pub mod profile_cache;
pub mod anonymity_discovery;
pub mod log_retention;
