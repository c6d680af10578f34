//! Guardian + NDIS hybrid health validation and kernel telemetry aggregation.

use vstd::prelude::*;
use crate::enforcement::{GuardianMode, spec_parse_guardian};
use crate::text::{opt_string_view, str_eq};

verus! {

/// A driver integrity failure: published as a driver-integrity event for
/// `driver` and as a kernel security violation of type `driver_integrity`.
pub struct DriverIntegrityFailure {
    pub driver: String,
    pub detail: String,
}

/// Health reported by the NDIS filter engine.
pub struct NdisHealthSummary {
    pub available: bool,
    pub state: String,
}

/// Outcome of the guardian validation: the mode with the Guardian and NDIS
/// driver messages, or the failure.
pub open spec fn spec_validate(
    mode: GuardianMode,
    guardian_probe: Result<Seq<char>, Seq<char>>,
    ndis_probe: Result<Seq<char>, Seq<char>>,
    ndis_available: bool,
    ndis_state: Seq<char>,
) -> Result<(GuardianMode, Option<Seq<char>>, Option<Seq<char>>), (Seq<char>, Seq<char>)> {
    if mode == GuardianMode::Hybrid && guardian_probe is Err {
        Err(("guardian"@, "hybrid mode requires Guardian driver: "@ + guardian_probe->Err_0))
    } else if mode == GuardianMode::Ndis && ndis_probe is Err {
        Err(("ndis"@, "ndis mode requires NDIS driver: "@ + ndis_probe->Err_0))
    } else if mode == GuardianMode::Hybrid && !ndis_available && ndis_state != "stub"@ {
        Err(("ndis"@, "hybrid mode NDIS side unhealthy"@))
    } else {
        let guardian_msg = if mode == GuardianMode::Hybrid {
            Some(guardian_probe->Ok_0)
        } else {
            None
        };
        let ndis_msg = if mode == GuardianMode::Hybrid || mode == GuardianMode::Ndis {
            match ndis_probe {
                Ok(info) => Some(info),
                Err(e) => Some("ndis unavailable: "@ + e),
            }
        } else {
            None
        };
        Ok((mode, guardian_msg, ndis_msg))
    }
}

/// What each guardian mode requires. Plain WFP requires no driver and reports
/// no driver message. NDIS mode fails without the NDIS driver (a failure of
/// driver `ndis`). Hybrid mode fails without the Guardian driver (a failure of
/// driver `guardian`); with it, a missing NDIS driver is no failure by itself
/// but the message `ndis unavailable: <error>`, and hybrid mode fails on the
/// NDIS side only when the NDIS engine is neither available nor a stub.
pub proof fn law_guardian_mode_requirements(
    guardian_probe: Result<Seq<char>, Seq<char>>,
    ndis_probe: Result<Seq<char>, Seq<char>>,
    ndis_available: bool,
    ndis_state: Seq<char>,
)
    ensures
        spec_validate(GuardianMode::Wfp, guardian_probe, ndis_probe, ndis_available, ndis_state) == Ok::<
            (GuardianMode, Option<Seq<char>>, Option<Seq<char>>),
            (Seq<char>, Seq<char>),
        >((GuardianMode::Wfp, None, None)),
        ndis_probe is Err ==> (spec_validate(GuardianMode::Ndis, guardian_probe, ndis_probe, ndis_available, ndis_state)
            matches Err((d, _)) && d == "ndis"@),
        guardian_probe is Err ==> (spec_validate(GuardianMode::Hybrid, guardian_probe, ndis_probe, ndis_available, ndis_state)
            matches Err((d, _)) && d == "guardian"@),
        guardian_probe is Ok ==> (spec_validate(
            GuardianMode::Hybrid,
            guardian_probe,
            ndis_probe,
            ndis_available,
            ndis_state,
        ) is Err <==> (!ndis_available && ndis_state != "stub"@)),
        guardian_probe is Ok && ndis_probe is Err && (ndis_available || ndis_state == "stub"@)
            ==> spec_validate(GuardianMode::Hybrid, guardian_probe, ndis_probe, ndis_available, ndis_state) == Ok::<
            (GuardianMode, Option<Seq<char>>, Option<Seq<char>>),
            (Seq<char>, Seq<char>),
        >((GuardianMode::Hybrid, Some(guardian_probe->Ok_0), Some("ndis unavailable: "@ + ndis_probe->Err_0))),
{
    reveal_strlit("ndis");
    reveal_strlit("guardian");
}

fn prefixed(prefix: &str, text: &str) -> (r: String)
    ensures
        r@ == prefix@ + text@,
{
    let mut s = String::from_str(prefix);
    s.append(text);
    s
}

/// Validates that the drivers the guardian mode needs are present: the Guardian
/// driver in hybrid mode, the NDIS driver in NDIS mode (optional in hybrid mode),
/// and in hybrid mode an NDIS side that is available or a stub.
pub fn validate(
    mode: GuardianMode,
    guardian_probe: Result<String, String>,
    ndis_probe: Result<String, String>,
    ndis_health: &NdisHealthSummary,
) -> (r: Result<(GuardianMode, Option<String>, Option<String>), DriverIntegrityFailure>)
    ensures
        match spec_validate(
            mode,
            match guardian_probe {
                Ok(s) => Ok(s@),
                Err(e) => Err(e@),
            },
            match ndis_probe {
                Ok(s) => Ok(s@),
                Err(e) => Err(e@),
            },
            ndis_health.available,
            ndis_health.state@,
        ) {
            Ok((m, g, n)) => r matches Ok((m2, g2, n2)) && m2 == m && opt_string_view(g2) == g
                && opt_string_view(n2) == n,
            Err((driver, detail)) => r matches Err(f) && f.driver@ == driver && f.detail@ == detail,
        },
{
    let hybrid = match mode {
        GuardianMode::Hybrid => true,
        _ => false,
    };
    let ndis_only = match mode {
        GuardianMode::Ndis => true,
        _ => false,
    };
    let guardian_msg = if hybrid {
        match guardian_probe {
            Ok(info) => Some(info),
            Err(e) => {
                return Err(
                    DriverIntegrityFailure {
                        driver: String::from_str("guardian"),
                        detail: prefixed("hybrid mode requires Guardian driver: ", e.as_str()),
                    },
                );
            },
        }
    } else {
        None
    };
    let ndis_msg = if mode.uses_ndis() {
        match ndis_probe {
            Ok(info) => Some(info),
            Err(e) => {
                if ndis_only {
                    return Err(
                        DriverIntegrityFailure {
                            driver: String::from_str("ndis"),
                            detail: prefixed("ndis mode requires NDIS driver: ", e.as_str()),
                        },
                    );
                }
                Some(prefixed("ndis unavailable: ", e.as_str()))
            },
        }
    } else {
        None
    };
    if hybrid {
        if !ndis_health.available && !str_eq(ndis_health.state.as_str(), "stub") {
            return Err(
                DriverIntegrityFailure {
                    driver: String::from_str("ndis"),
                    detail: String::from_str("hybrid mode NDIS side unhealthy"),
                },
            );
        }
    }
    Ok((mode, guardian_msg, ndis_msg))
}

/// An event the guardian validation publishes.
pub enum IntegrityEvent {
    /// The driver that failed its integrity check, with the failure.
    DriverIntegrityFailure { driver: String, detail: String },
    /// A kernel security violation of the given type.
    KernelSecurityViolation { violation_type: String, detail: String },
}

impl DriverIntegrityFailure {
    /// Detail of the kernel security violation: `driver: detail`.
    pub fn violation_detail(&self) -> (r: String)
        ensures
            r@ == self.driver@ + ": "@ + self.detail@,
    {
        let mut s = String::from_str(self.driver.as_str());
        s.append(": ");
        s.append(self.detail.as_str());
        s
    }

    /// The events that report the failure, in the order they are published: a
    /// driver integrity failure for the driver, then a kernel security violation
    /// of type `driver_integrity` whose detail is `driver: detail`.
    pub fn events(&self) -> (r: Vec<IntegrityEvent>)
        ensures
            r@.len() == 2,
            r@[0] matches IntegrityEvent::DriverIntegrityFailure { driver, detail } && driver@ == self.driver@
                && detail@ == self.detail@,
            r@[1] matches IntegrityEvent::KernelSecurityViolation { violation_type, detail }
                && violation_type@ == "driver_integrity"@ && detail@ == self.driver@ + ": "@ + self.detail@,
    {
        let mut r: Vec<IntegrityEvent> = Vec::new();
        r.push(
            IntegrityEvent::DriverIntegrityFailure {
                driver: String::from_str(self.driver.as_str()),
                detail: String::from_str(self.detail.as_str()),
            },
        );
        r.push(
            IntegrityEvent::KernelSecurityViolation {
                violation_type: String::from_str("driver_integrity"),
                detail: self.violation_detail(),
            },
        );
        r
    }
}

/// Guardian mode of a stored setting; a missing or unreadable setting is plain WFP.
pub fn guardian_mode_from_setting(setting: Option<&str>) -> (r: GuardianMode)
    ensures
        r == match setting {
            Some(s) => spec_parse_guardian(s@),
            None => GuardianMode::Wfp,
        },
{
    match setting {
        Some(s) => GuardianMode::parse(s),
        None => GuardianMode::Wfp,
    }
}

/// State of the Guardian WFP driver.
pub struct DriverState {
    pub state: String,
    pub engine: String,
    pub filter_count: u32,
    pub provider_registered: bool,
}

/// NDIS side of the kernel telemetry.
pub struct NdisCounts {
    pub available: bool,
    pub active_route_count: u32,
    pub active_redirect_count: u32,
}

/// Counters of the NDIS telemetry summary.
pub struct TelemetrySummary {
    pub classify_count: u64,
    pub redirect_count: u64,
    pub transform_count: u64,
    pub cover_traffic_count: u64,
    pub error_count: u64,
    pub dropped_count: u64,
}

pub struct KernelTelemetry {
    pub guardian_mode: GuardianMode,
    pub guardian: Option<DriverState>,
    pub ndis: Option<NdisCounts>,
    pub summary: TelemetrySummary,
    pub captured_at: i64,
}

pub struct KernelStatistics {
    pub guardian_mode: GuardianMode,
    pub wfp_filter_count: u32,
    pub ndis_route_count: u32,
    pub ndis_redirect_count: u32,
    pub telemetry_events: u64,
    pub security_violations: u64,
    pub captured_at: i64,
}

/// Which sides report telemetry in a mode: the Guardian driver in WFP and hybrid
/// modes, the NDIS filter in hybrid and NDIS modes.
pub fn telemetry_sources(mode: GuardianMode) -> (r: (bool, bool))
    ensures
        r.0 == (mode == GuardianMode::Wfp || mode == GuardianMode::Hybrid),
        r.1 == (mode == GuardianMode::Hybrid || mode == GuardianMode::Ndis),
{
    let guardian = match mode {
        GuardianMode::Ndis => false,
        _ => true,
    };
    (guardian, mode.uses_ndis())
}

/// Kernel statistics of a telemetry snapshot: filter and route counts of the
/// sides present (0 otherwise), the sum of classify, redirect, transform and
/// cover-traffic events, and the error count as security violations.
pub fn statistics(telemetry: &KernelTelemetry, captured_at: i64) -> (r: KernelStatistics)
    requires
        telemetry.summary.classify_count + telemetry.summary.redirect_count + telemetry.summary.transform_count
            + telemetry.summary.cover_traffic_count <= u64::MAX,
    ensures
        r.guardian_mode == telemetry.guardian_mode,
        r.wfp_filter_count == match telemetry.guardian {
            Some(g) => g.filter_count,
            None => 0,
        },
        r.ndis_route_count == match telemetry.ndis {
            Some(n) => n.active_route_count,
            None => 0,
        },
        r.ndis_redirect_count == match telemetry.ndis {
            Some(n) => n.active_redirect_count,
            None => 0,
        },
        r.telemetry_events == telemetry.summary.classify_count + telemetry.summary.redirect_count
            + telemetry.summary.transform_count + telemetry.summary.cover_traffic_count,
        r.security_violations == telemetry.summary.error_count,
        r.captured_at == captured_at,
{
    let wfp_filter_count = match &telemetry.guardian {
        Some(g) => g.filter_count,
        None => 0,
    };
    let (ndis_route_count, ndis_redirect_count) = match &telemetry.ndis {
        Some(n) => (n.active_route_count, n.active_redirect_count),
        None => (0, 0),
    };
    let s = &telemetry.summary;
    KernelStatistics {
        guardian_mode: telemetry.guardian_mode,
        wfp_filter_count,
        ndis_route_count,
        ndis_redirect_count,
        telemetry_events: s.classify_count + s.redirect_count + s.transform_count + s.cover_traffic_count,
        security_violations: s.error_count,
        captured_at,
    }
}

} // verus!
