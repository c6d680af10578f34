//! The integer parts of the privacy analytics snapshot: bonuses, the
//! cover-traffic level and the capped route diversity. Their floating-point
//! combination is left to the caller.

use vstd::prelude::*;
use crate::cover_traffic::CoverTrafficProfile;

verus! {

/// Score bonus of the running anonymity machinery: 20 for a running mixnet,
/// 10 for any active anonymity provider, 15 for running cover traffic.
pub fn anonymity_bonus(mixnet_running: bool, active_providers: u32, cover_running: bool) -> (r: u8)
    ensures
        r == (if mixnet_running {
            20int
        } else {
            0
        }) + (if active_providers > 0 {
            10int
        } else {
            0
        }) + (if cover_running {
            15int
        } else {
            0
        }),
{
    let a: u8 = if mixnet_running {
        20
    } else {
        0
    };
    let b: u8 = if active_providers > 0 {
        10
    } else {
        0
    };
    let c: u8 = if cover_running {
        15
    } else {
        0
    };
    a + b + c
}

/// Effectiveness of cover traffic in quarters (0 to 4): none unless it runs,
/// else by profile from `Disabled` (0) to `Maximum` (4).
pub fn cover_effectiveness_quarters(running: bool, profile: CoverTrafficProfile) -> (r: u8)
    ensures
        !running ==> r == 0,
        running ==> r == match profile {
            CoverTrafficProfile::Disabled => 0u8,
            CoverTrafficProfile::Low => 1u8,
            CoverTrafficProfile::Medium => 2u8,
            CoverTrafficProfile::High => 3u8,
            CoverTrafficProfile::Maximum => 4u8,
        },
{
    if !running {
        return 0;
    }
    match profile {
        CoverTrafficProfile::Disabled => 0,
        CoverTrafficProfile::Low => 1,
        CoverTrafficProfile::Medium => 2,
        CoverTrafficProfile::High => 3,
        CoverTrafficProfile::Maximum => 4,
    }
}

/// Path diversity in tenths (0 to 10): the number of distinct route types,
/// capped at ten.
pub fn path_diversity_tenths(distinct_route_types: usize) -> (r: u8)
    ensures
        r == (if distinct_route_types < 10 {
            distinct_route_types as int
        } else {
            10
        }),
{
    if distinct_route_types < 10 {
        distinct_route_types as u8
    } else {
        10
    }
}

/// Seconds between two analytics runs: the configured interval (300 where it
/// cannot be read), at least 60.
pub fn analytics_interval_secs(configured: Option<u64>) -> (r: u64)
    ensures
        r == ({
            let c = match configured {
                Some(s) => s,
                None => 300,
            };
            if c < 60 {
                60
            } else {
                c
            }
        }),
{
    let c = match configured {
        Some(s) => s,
        None => 300,
    };
    if c < 60 {
        60
    } else {
        c
    }
}

} // verus!
