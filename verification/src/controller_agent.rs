//! Optional controller enrollment, heartbeat, policy pull and telemetry push:
//! the decisions of the agent task and the addresses it talks to.

use vstd::prelude::*;
use crate::cloud::{base_of, base_url, join3};
use crate::ids::{parse_uuid, uuid_parse, uuid_text};
use crate::text::{decimal, to_decimal, to_owned_string};

verus! {

/// Settings key of the configuration.
pub fn settings_key() -> (r: &'static str)
    ensures
        r@ == "controller_agent"@,
{
    "controller_agent"
}

pub struct ControllerAgentConfig {
    pub enabled: bool,
    pub controller_url: String,
    pub enrollment_token: Option<String>,
    pub device_id: Option<String>,
    pub device_name: String,
    pub heartbeat_interval_secs: u64,
    pub policy_pull_interval_secs: u64,
    pub push_kernel_heartbeat: bool,
    pub push_mixnet_heartbeat: bool,
    pub push_anonymity_heartbeat: bool,
    pub push_ztna_heartbeat: bool,
    pub push_sse_telemetry: bool,
}

/// Device name used when none is configured: the computer name, else the host
/// name, else `wiresentinel-core`.
pub open spec fn spec_default_device_name(computer_name: Option<Seq<char>>, hostname: Option<Seq<char>>) -> Seq<char> {
    match computer_name {
        Some(c) => c,
        None => match hostname {
            Some(h) => h,
            None => "wiresentinel-core"@,
        },
    }
}

/// The default device name, from the `COMPUTERNAME` and `HOSTNAME` variables of
/// the environment (each `None` where unset).
pub fn default_device_name(computer_name: Option<&str>, hostname: Option<&str>) -> (r: String)
    ensures
        r@ == spec_default_device_name(
            match computer_name { Some(c) => Some(c@), None => None },
            match hostname { Some(h) => Some(h@), None => None },
        ),
{
    match computer_name {
        Some(c) => to_owned_string(c),
        None => match hostname {
            Some(h) => to_owned_string(h),
            None => String::from_str("wiresentinel-core"),
        },
    }
}

pub fn default_heartbeat_secs() -> (r: u64)
    ensures
        r == 60,
{
    60
}

pub fn default_policy_pull_secs() -> (r: u64)
    ensures
        r == 300,
{
    300
}

impl ControllerAgentConfig {
    /// The default configuration under a device name: disabled, no URL, token
    /// or device id, heartbeat every 60 s, policy pull every 300 s, no extra
    /// pushes.
    pub fn default_with_name(device_name: String) -> (r: ControllerAgentConfig)
        ensures
            !r.enabled,
            r.controller_url@.len() == 0,
            r.enrollment_token.is_none(),
            r.device_id.is_none(),
            r.device_name@ == device_name@,
            r.heartbeat_interval_secs == 60,
            r.policy_pull_interval_secs == 300,
            !r.push_kernel_heartbeat,
            !r.push_mixnet_heartbeat,
            !r.push_anonymity_heartbeat,
            !r.push_ztna_heartbeat,
            !r.push_sse_telemetry,
    {
        ControllerAgentConfig {
            enabled: false,
            controller_url: String::new(),
            enrollment_token: None,
            device_id: None,
            device_name,
            heartbeat_interval_secs: default_heartbeat_secs(),
            policy_pull_interval_secs: default_policy_pull_secs(),
            push_kernel_heartbeat: false,
            push_mixnet_heartbeat: false,
            push_anonymity_heartbeat: false,
            push_ztna_heartbeat: false,
            push_sse_telemetry: false,
        }
    }
}

/// `max(v, floor)`.
pub open spec fn at_least(v: u64, floor: u64) -> u64 {
    if v < floor {
        floor
    } else {
        v
    }
}

/// What the running agent does on its ticks.
pub struct AgentPlan {
    pub base: String,
    pub device_id: String,
    pub heartbeat_secs: u64,
    pub policy_pull_secs: u64,
    pub push_kernel_heartbeat: bool,
    pub push_mixnet_heartbeat: bool,
    pub push_anonymity_heartbeat: bool,
    pub push_ztna_heartbeat: bool,
    pub push_sse_telemetry: bool,
}

/// How the agent task starts.
pub enum AgentStart {
    /// Not enabled, or no controller URL: no task.
    Disabled,
    /// Enabled, but with neither a device id nor an enrollment token: the task
    /// stops with a warning.
    NoCredentials,
    /// The device must first register at `base` with the token under the name.
    Enroll { base: String, token: String, name: String },
    Ready(AgentPlan),
}

/// The running plan for a device id: heartbeats every `max(heartbeat, 15)`
/// seconds, policy pulls every `max(policy_pull, 60)` seconds.
pub open spec fn plan_matches(p: AgentPlan, config: ControllerAgentConfig, device_id: Seq<char>) -> bool {
    &&& p.base@ == base_url(config.controller_url@)
    &&& p.device_id@ == device_id
    &&& p.heartbeat_secs == at_least(config.heartbeat_interval_secs, 15)
    &&& p.policy_pull_secs == at_least(config.policy_pull_interval_secs, 60)
    &&& p.push_kernel_heartbeat == config.push_kernel_heartbeat
    &&& p.push_mixnet_heartbeat == config.push_mixnet_heartbeat
    &&& p.push_anonymity_heartbeat == config.push_anonymity_heartbeat
    &&& p.push_ztna_heartbeat == config.push_ztna_heartbeat
    &&& p.push_sse_telemetry == config.push_sse_telemetry
}

pub struct ControllerAgent;

impl ControllerAgent {
    fn ready(config: &ControllerAgentConfig, device_id: &String) -> (p: AgentPlan)
        ensures
            plan_matches(p, *config, device_id@),
    {
        AgentPlan {
            base: base_of(config.controller_url.as_str()),
            device_id: device_id.clone(),
            heartbeat_secs: if config.heartbeat_interval_secs < 15 {
                15
            } else {
                config.heartbeat_interval_secs
            },
            policy_pull_secs: if config.policy_pull_interval_secs < 60 {
                60
            } else {
                config.policy_pull_interval_secs
            },
            push_kernel_heartbeat: config.push_kernel_heartbeat,
            push_mixnet_heartbeat: config.push_mixnet_heartbeat,
            push_anonymity_heartbeat: config.push_anonymity_heartbeat,
            push_ztna_heartbeat: config.push_ztna_heartbeat,
            push_sse_telemetry: config.push_sse_telemetry,
        }
    }

    /// How the agent task starts for `config`.
    pub fn plan(config: &ControllerAgentConfig) -> (r: AgentStart)
        ensures
            !config.enabled || config.controller_url@.len() == 0 ==> r is Disabled,
            config.enabled && config.controller_url@.len() > 0 ==> match config.device_id {
                Some(d) => r matches AgentStart::Ready(p) && plan_matches(p, *config, d@),
                None => match config.enrollment_token {
                    Some(t) => r matches AgentStart::Enroll { base, token, name } && base@ == base_url(
                        config.controller_url@,
                    ) && token@ == t@ && name@ == config.device_name@,
                    None => r is NoCredentials,
                },
            },
    {
        if !config.enabled || config.controller_url.as_str().unicode_len() == 0 {
            return AgentStart::Disabled;
        }
        match &config.device_id {
            Some(d) => AgentStart::Ready(Self::ready(config, d)),
            None => match &config.enrollment_token {
                Some(t) => AgentStart::Enroll {
                    base: base_of(config.controller_url.as_str()),
                    token: t.clone(),
                    name: config.device_name.clone(),
                },
                None => AgentStart::NoCredentials,
            },
        }
    }

    /// After a registration: the configuration to persist and the running plan
    /// (`None` when the registration failed, and the task stops).
    pub fn after_enrollment(config: ControllerAgentConfig, registered: Option<String>) -> (r: (
        ControllerAgentConfig,
        Option<AgentPlan>,
    ))
        ensures
            match registered {
                Some(id) => {
                    &&& r.0.device_id matches Some(d) && d@ == id@
                    &&& r.1 matches Some(p) && plan_matches(p, r.0, id@)
                },
                None => r.0 == config && r.1.is_none(),
            },
            r.0.enabled == config.enabled,
            r.0.controller_url == config.controller_url,
            r.0.enrollment_token == config.enrollment_token,
            r.0.device_name == config.device_name,
            r.0.heartbeat_interval_secs == config.heartbeat_interval_secs,
            r.0.policy_pull_interval_secs == config.policy_pull_interval_secs,
            r.0.push_kernel_heartbeat == config.push_kernel_heartbeat,
            r.0.push_mixnet_heartbeat == config.push_mixnet_heartbeat,
            r.0.push_anonymity_heartbeat == config.push_anonymity_heartbeat,
            r.0.push_ztna_heartbeat == config.push_ztna_heartbeat,
            r.0.push_sse_telemetry == config.push_sse_telemetry,
    {
        match registered {
            Some(id) => {
                let plan = Self::ready(&config, &id);
                (ControllerAgentConfig { device_id: Some(id), ..config }, Some(plan))
            },
            None => (config, None),
        }
    }

    /// The enrollment event for a registered device id: published only when
    /// the id is a UUID.
    pub fn enrolled_event(device_id: &str, name: &str) -> (r: Option<AgentEnrolled>)
        ensures
            match uuid_parse(device_id@) {
                Some(a) => r matches Some(e) && e.agent_id == a && e.name@ == name@,
                None => r.is_none(),
            },
            (exists|x: u128| device_id@ == uuid_text(x)) ==> (r matches Some(e) && device_id@ == uuid_text(
                e.agent_id,
            )),
    {
        match parse_uuid(device_id) {
            Some(agent_id) => Some(AgentEnrolled { agent_id, name: to_owned_string(name) }),
            None => None,
        }
    }
}

/// `AgentEnrolled` event data.
pub struct AgentEnrolled {
    pub agent_id: u128,
    pub name: String,
}

/// A request the agent sends on a heartbeat tick.
#[derive(Debug, Clone, Copy, PartialEq, Eq, Structural)]
pub enum HeartbeatPush {
    Heartbeat,
    Metrics,
    Kernel,
    Mixnet,
    Anonymity,
    Ztna,
    Sse,
}

/// Requests of one heartbeat tick, in order: the heartbeat; the metrics when a
/// snapshot could be taken; then each enabled extra push (ZTNA and SSE only
/// when their agent runs).
pub open spec fn spec_heartbeat_pushes(
    p: AgentPlan,
    metrics_available: bool,
    ztna_running: bool,
    sse_running: bool,
) -> Seq<HeartbeatPush> {
    seq![HeartbeatPush::Heartbeat] + (if metrics_available {
        seq![HeartbeatPush::Metrics]
    } else {
        seq![]
    }) + (if p.push_kernel_heartbeat {
        seq![HeartbeatPush::Kernel]
    } else {
        seq![]
    }) + (if p.push_mixnet_heartbeat {
        seq![HeartbeatPush::Mixnet]
    } else {
        seq![]
    }) + (if p.push_anonymity_heartbeat {
        seq![HeartbeatPush::Anonymity]
    } else {
        seq![]
    }) + (if p.push_ztna_heartbeat && ztna_running {
        seq![HeartbeatPush::Ztna]
    } else {
        seq![]
    }) + (if p.push_sse_telemetry && sse_running {
        seq![HeartbeatPush::Sse]
    } else {
        seq![]
    })
}

pub fn heartbeat_pushes(p: &AgentPlan, metrics_available: bool, ztna_running: bool, sse_running: bool) -> (r: Vec<
    HeartbeatPush,
>)
    ensures
        r@ == spec_heartbeat_pushes(*p, metrics_available, ztna_running, sse_running),
{
    let mut v: Vec<HeartbeatPush> = Vec::new();
    v.push(HeartbeatPush::Heartbeat);
    if metrics_available {
        v.push(HeartbeatPush::Metrics);
    }
    if p.push_kernel_heartbeat {
        v.push(HeartbeatPush::Kernel);
    }
    if p.push_mixnet_heartbeat {
        v.push(HeartbeatPush::Mixnet);
    }
    if p.push_anonymity_heartbeat {
        v.push(HeartbeatPush::Anonymity);
    }
    if p.push_ztna_heartbeat && ztna_running {
        v.push(HeartbeatPush::Ztna);
    }
    if p.push_sse_telemetry && sse_running {
        v.push(HeartbeatPush::Sse);
    }
    assert(v@ =~= spec_heartbeat_pushes(*p, metrics_available, ztna_running, sse_running));
    v
}

/// Path of a push below the device.
pub open spec fn push_path(kind: HeartbeatPush) -> Seq<char> {
    match kind {
        HeartbeatPush::Heartbeat => "/heartbeat"@,
        HeartbeatPush::Metrics => "/metrics"@,
        HeartbeatPush::Kernel => "/kernel/heartbeat"@,
        HeartbeatPush::Mixnet => "/mixnet/heartbeat"@,
        HeartbeatPush::Anonymity => "/anonymity/heartbeat"@,
        HeartbeatPush::Ztna => "/ztna/heartbeat"@,
        HeartbeatPush::Sse => "/sse/telemetry"@,
    }
}

/// URL of a push: the heartbeat goes to `{base}/api/v1/devices/{id}/heartbeat`,
/// the others to `{base}/api/v1/agents/{id}{path}`.
pub open spec fn spec_push_url(base: Seq<char>, device_id: Seq<char>, kind: HeartbeatPush) -> Seq<char> {
    base + (if kind == HeartbeatPush::Heartbeat {
        "/api/v1/devices/"@
    } else {
        "/api/v1/agents/"@
    }) + device_id + push_path(kind)
}

fn push_path_str(kind: HeartbeatPush) -> (r: &'static str)
    ensures
        r@ == push_path(kind),
{
    match kind {
        HeartbeatPush::Heartbeat => "/heartbeat",
        HeartbeatPush::Metrics => "/metrics",
        HeartbeatPush::Kernel => "/kernel/heartbeat",
        HeartbeatPush::Mixnet => "/mixnet/heartbeat",
        HeartbeatPush::Anonymity => "/anonymity/heartbeat",
        HeartbeatPush::Ztna => "/ztna/heartbeat",
        HeartbeatPush::Sse => "/sse/telemetry",
    }
}

pub fn push_url(base: &str, device_id: &str, kind: HeartbeatPush) -> (r: String)
    ensures
        r@ == spec_push_url(base@, device_id@, kind),
{
    let prefix = match kind {
        HeartbeatPush::Heartbeat => "/api/v1/devices/",
        _ => "/api/v1/agents/",
    };
    let mut s = join3(base, prefix, device_id);
    s.append(push_path_str(kind));
    s
}

/// `{base}/api/v1/devices/register`.
pub fn register_url(base: &str) -> (r: String)
    ensures
        r@ == base@ + "/api/v1/devices/register"@,
{
    let mut s = String::from_str(base);
    s.append("/api/v1/devices/register");
    s
}

/// Audit value of an applied controller policy: `v{version}`.
pub fn policy_version_label(version: u32) -> (r: String)
    ensures
        r@ == seq!['v'] + decimal(version as nat),
{
    let mut s = String::from_str("v");
    let d = to_decimal(version as u64);
    s.append(d.as_str());
    proof {
        reveal_strlit("v");
    }
    s
}

} // verus!
