//! Route entropy figures that need no floating point: the diversity of route
//! types and the anonymity-set estimate from provider counts.

use vstd::prelude::*;
use crate::privacy::distinct_count;
use crate::security_policy::texts;

verus! {

pub struct RouteEntropyBridge;

impl RouteEntropyBridge {
    /// Diversity of route types as a fraction `(distinct, total)`: the number of
    /// distinct types over the number of routes; `(0, 0)` stands for a score of
    /// 0 when there are no routes.
    pub fn score_route_types(route_types: &[String]) -> (r: (usize, usize))
        ensures
            r.1 == route_types@.len(),
            r.0 == texts(route_types@).to_set().len(),
    {
        (distinct_count(route_types), route_types.len())
    }

    /// Anonymity-set estimate from the number of active providers: twice the
    /// providers (at least one), half as much again with an active federation.
    pub fn estimate_from_counts(active_providers: u32, federated_active: bool) -> (r: u64)
        ensures
            r == (if active_providers < 1 {
                1
            } else {
                active_providers
            }) * (if federated_active {
                3int
            } else {
                2int
            }),
    {
        let base: u64 = if active_providers < 1 {
            1
        } else {
            active_providers as u64
        };
        if federated_active {
            base * 3
        } else {
            base * 2
        }
    }
}

} // verus!
