//! Fault injection for recovery verification: what each scenario breaks and
//! when recovery counts as verified.

use vstd::prelude::*;
use crate::text::str_eq;

verus! {

/// What a fault scenario breaks before recovery runs.
#[derive(Debug, Clone, Copy, PartialEq, Eq, Structural)]
pub enum Fault {
    /// Disconnect every VPN profile.
    VpnCrash,
    /// Nothing is broken; recovery of DNS is taken as given.
    DnsCrash,
    /// Shut the WFP engine down.
    WfpFailure,
    /// Nothing is broken.
    TransportCrash,
    /// An unknown scenario: nothing is broken.
    Unknown,
}

pub open spec fn spec_fault(scenario: Seq<char>) -> Fault {
    if scenario == "vpn_crash"@ {
        Fault::VpnCrash
    } else if scenario == "dns_crash"@ {
        Fault::DnsCrash
    } else if scenario == "wfp_failure"@ {
        Fault::WfpFailure
    } else if scenario == "transport_crash"@ {
        Fault::TransportCrash
    } else {
        Fault::Unknown
    }
}

pub fn fault_for(scenario: &str) -> (r: Fault)
    ensures
        r == spec_fault(scenario@),
{
    if str_eq(scenario, "vpn_crash") {
        Fault::VpnCrash
    } else if str_eq(scenario, "dns_crash") {
        Fault::DnsCrash
    } else if str_eq(scenario, "wfp_failure") {
        Fault::WfpFailure
    } else if str_eq(scenario, "transport_crash") {
        Fault::TransportCrash
    } else {
        Fault::Unknown
    }
}

/// Recovery is verified when it restored something, or for the DNS scenario.
pub fn recovery_verified(scenario: &str, restored: u64) -> (r: bool)
    ensures
        r == (restored > 0 || scenario@ == "dns_crash"@),
{
    restored > 0 || str_eq(scenario, "dns_crash")
}

} // verus!
