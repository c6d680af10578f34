//! Sync of per-app routes to the NDIS filter driver when the guardian mode
//! uses NDIS.

use vstd::prelude::*;
use crate::enforcement::GuardianMode;
use crate::routing::TrafficRoute;

verus! {

/// What the NDIS driver is told about an app's route.
#[derive(Debug, Clone, Copy, PartialEq, Eq, Structural)]
pub enum NdisSync {
    /// Nothing: the guardian mode does not use NDIS.
    Skip,
    /// Clear the app's route (its traffic is blocked).
    Clear,
    /// Install the app's route.
    Install,
}

pub struct KernelRouteBridge {
    pub mode: GuardianMode,
}

impl KernelRouteBridge {
    pub fn new(mode: GuardianMode) -> (r: KernelRouteBridge)
        ensures
            r.mode == mode,
    {
        KernelRouteBridge { mode }
    }

    pub fn mode(&self) -> (r: GuardianMode)
        ensures
            r == self.mode,
    {
        self.mode
    }

    /// Whether routes are synced: the hybrid and NDIS modes use the NDIS driver.
    pub fn is_active(&self) -> (r: bool)
        ensures
            r == (self.mode == GuardianMode::Hybrid || self.mode == GuardianMode::Ndis),
    {
        self.mode.uses_ndis()
    }

    /// What enforcing `route` for an app tells the driver.
    pub fn sync_action(&self, route: &TrafficRoute) -> (r: NdisSync)
        ensures
            !(self.mode == GuardianMode::Hybrid || self.mode == GuardianMode::Ndis) ==> r == NdisSync::Skip,
            (self.mode == GuardianMode::Hybrid || self.mode == GuardianMode::Ndis) ==> r == (if *route
                == TrafficRoute::Blocked {
                NdisSync::Clear
            } else {
                NdisSync::Install
            }),
    {
        if !self.is_active() {
            return NdisSync::Skip;
        }
        match route {
            TrafficRoute::Blocked => NdisSync::Clear,
            _ => NdisSync::Install,
        }
    }
}

} // verus!
