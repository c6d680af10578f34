//! Diagnostics: the health each subsystem check reports.

use vstd::prelude::*;
use crate::text::{decimal, push_decimal, str_eq, to_owned_string};

verus! {

/// Health of one subsystem.
pub struct SubsystemHealth {
    pub status: String,
    pub message: Option<String>,
}

/// Status of the WFP engine by driver state: `ok` when the driver is ok,
/// running or loaded, `disabled` when it is a stub or disabled, else `error`.
pub open spec fn wfp_status(state: Seq<char>) -> Seq<char> {
    if state == "ok"@ || state == "running"@ || state == "loaded"@ {
        "ok"@
    } else if state == "stub"@ || state == "disabled"@ {
        "disabled"@
    } else {
        "error"@
    }
}

/// Health of the WFP engine: its status, and the driver's message or else
/// `engine: {engine}`.
pub fn check_wfp(state: &str, message: Option<String>, engine: &str) -> (r: SubsystemHealth)
    ensures
        r.status@ == wfp_status(state@),
        match message {
            Some(m) => r.message matches Some(x) && x@ == m@,
            None => r.message matches Some(x) && x@ == "engine: "@ + engine@,
        },
{
    let status = if str_eq(state, "ok") || str_eq(state, "running") || str_eq(state, "loaded") {
        "ok"
    } else if str_eq(state, "stub") || str_eq(state, "disabled") {
        "disabled"
    } else {
        "error"
    };
    let message = match message {
        Some(m) => Some(m),
        None => {
            let mut s = String::from_str("engine: ");
            s.append(engine);
            Some(s)
        },
    };
    SubsystemHealth { status: String::from_str(status), message }
}

/// Health of the VPN manager: `ok`, `{count} active tunnel(s)`.
pub fn check_vpn(active_count: u64) -> (r: SubsystemHealth)
    ensures
        r.status@ == "ok"@,
        r.message matches Some(m) && m@ == decimal(active_count as nat) + " active tunnel(s)"@,
{
    let mut m = String::new();
    push_decimal(&mut m, active_count);
    m.append(" active tunnel(s)");
    proof {
        assert(Seq::<char>::empty() + decimal(active_count as nat) + " active tunnel(s)"@ =~= decimal(
            active_count as nat,
        ) + " active tunnel(s)"@);
    }
    SubsystemHealth { status: String::from_str("ok"), message: Some(m) }
}

/// Health of the DNS layer: `ok` when enabled, else `disabled`.
pub fn check_dns(enabled: bool) -> (r: SubsystemHealth)
    ensures
        r.status@ == (if enabled {
            "ok"@
        } else {
            "disabled"@
        }),
        r.message.is_none(),
{
    SubsystemHealth {
        status: String::from_str(
            if enabled {
                "ok"
            } else {
                "disabled"
            },
        ),
        message: None,
    }
}

/// Health of the transports: `ok` with `{n} profile(s)`, or `error` with the
/// error's text.
pub fn check_transport(status: Result<u64, String>) -> (r: SubsystemHealth)
    ensures
        match status {
            Ok(n) => r.status@ == "ok"@ && (r.message matches Some(m) && m@ == decimal(n as nat) + " profile(s)"@),
            Err(e) => r.status@ == "error"@ && (r.message matches Some(m) && m@ == e@),
        },
{
    match status {
        Ok(n) => {
            let mut m = String::new();
            push_decimal(&mut m, n);
            m.append(" profile(s)");
            proof {
                assert(Seq::<char>::empty() + decimal(n as nat) + " profile(s)"@ =~= decimal(n as nat)
                    + " profile(s)"@);
            }
            SubsystemHealth { status: String::from_str("ok"), message: Some(m) }
        },
        Err(e) => SubsystemHealth { status: String::from_str("error"), message: Some(e) },
    }
}

/// Health of a check that only succeeds or fails (the database read, the data
/// directory): `ok` with the success message, or `error` with the error's text.
pub fn check_outcome(outcome: Result<Option<String>, String>) -> (r: SubsystemHealth)
    ensures
        match outcome {
            Ok(m) => r.status@ == "ok"@ && r.message == m,
            Err(e) => r.status@ == "error"@ && (r.message matches Some(m) && m@ == e@),
        },
{
    match outcome {
        Ok(m) => SubsystemHealth { status: String::from_str("ok"), message: m },
        Err(e) => SubsystemHealth { status: String::from_str("error"), message: Some(e) },
    }
}

/// Files of a diagnostics bundle, in order: the health report, the version
/// file, and the latest privacy snapshot when there is one.
pub fn bundle_files(has_privacy_snapshot: bool) -> (r: Vec<String>)
    ensures
        has_privacy_snapshot ==> r@.len() == 3 && r@[2]@ == "privacy_snapshot.json"@,
        !has_privacy_snapshot ==> r@.len() == 2,
        r@[0]@ == "health.json"@,
        r@[1]@ == "version.json"@,
{
    let mut v: Vec<String> = Vec::new();
    v.push(String::from_str("health.json"));
    v.push(String::from_str("version.json"));
    if has_privacy_snapshot {
        v.push(String::from_str("privacy_snapshot.json"));
    }
    v
}

/// Name of a log file inside the log archive: `logs/{name}`.
pub fn log_archive_name(file_name: &str) -> (r: String)
    ensures
        r@ == "logs/"@ + file_name@,
{
    let mut s = String::from_str("logs/");
    s.append(file_name);
    s
}

} // verus!
