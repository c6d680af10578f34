//! Decoy routing (lab mode): which mode the framework runs in and when a
//! decoy route may be created.

use vstd::prelude::*;
use crate::error::ServiceError;

verus! {

/// Mode of the decoy routing framework.
#[derive(Debug, Clone, Copy, PartialEq, Eq, Structural)]
pub enum DecoyMode {
    Lab,
    Simulation,
    Research,
}

/// The framework runs in lab mode when the anonymity policy is in lab mode,
/// else in research mode.
pub fn decoy_mode(lab_mode: bool) -> (r: DecoyMode)
    ensures
        r == (if lab_mode {
            DecoyMode::Lab
        } else {
            DecoyMode::Research
        }),
{
    if lab_mode {
        DecoyMode::Lab
    } else {
        DecoyMode::Research
    }
}

/// Hops a created decoy route is simulated over.
pub const DECOY_ROUTE_HOPS: u32 = 2;

/// Whether a decoy route may be created: only in lab or simulation mode.
pub fn check_create_route(mode: DecoyMode) -> (r: Result<(), ServiceError>)
    ensures
        (mode == DecoyMode::Lab || mode == DecoyMode::Simulation) ==> r is Ok,
        mode == DecoyMode::Research ==> (r matches Err(ServiceError::Policy(m)) && m@
            == "decoy routing requires lab or simulation mode"@),
{
    match mode {
        DecoyMode::Lab | DecoyMode::Simulation => Ok(()),
        DecoyMode::Research => Err(ServiceError::Policy(String::from_str("decoy routing requires lab or simulation mode"))),
    }
}

/// Hop count reported for a simulated route (kept to 32 bits).
pub fn simulated_hops(hop_count: usize) -> (r: u32)
    ensures
        r == (hop_count as int) % 0x1_0000_0000int,
{
    (hop_count as u64 % 0x1_0000_0000u64) as u32
}

} // verus!
