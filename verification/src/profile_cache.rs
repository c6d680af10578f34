//! Lookup of each VPN profile's backend, and the filter subscriptions derived
//! from stored filter lists.

use vstd::prelude::*;
use std::collections::HashMap;
use crate::ids::{uuid_text, uuid_to_string};
use crate::paths::{joinable_base, joined, path_join, plain_component};

verus! {

broadcast use vstd::std_specs::hash::group_hash_axioms;

/// Tunnel implementation of a VPN profile.
#[derive(Debug, Clone, Copy, PartialEq, Eq, Structural)]
pub enum VpnBackendKind {
    WireGuard,
    AmneziaWg,
    OpenVpn,
    Other,
}

/// The backend of each known VPN profile.
pub struct ProfileCache {
    map: HashMap<u128, VpnBackendKind>,
}

/// Map of profile ids to backends after loading `profiles` in order (a later
/// entry for the same id wins).
pub open spec fn loaded(profiles: Seq<(u128, VpnBackendKind)>) -> Map<u128, VpnBackendKind>
    decreases profiles.len(),
{
    if profiles.len() == 0 {
        Map::empty()
    } else {
        loaded(profiles.drop_last()).insert(profiles.last().0, profiles.last().1)
    }
}

impl View for ProfileCache {
    type V = Map<u128, VpnBackendKind>;

    closed spec fn view(&self) -> Map<u128, VpnBackendKind> {
        self.map@
    }
}

impl ProfileCache {
    pub fn new() -> (r: ProfileCache)
        ensures
            r@ == Map::<u128, VpnBackendKind>::empty(),
    {
        ProfileCache { map: HashMap::new() }
    }

    /// Replaces the cache with the given profiles' backends.
    pub fn load(&mut self, profiles: &Vec<(u128, VpnBackendKind)>)
        ensures
            final(self)@ == loaded(profiles@),
    {
        self.map.clear();
        let mut i: usize = 0;
        while i < profiles.len()
            invariant
                i <= profiles@.len(),
                self.map@ == loaded(profiles@.take(i as int)),
            decreases profiles@.len() - i,
        {
            let (id, kind) = profiles[i];
            self.map.insert(id, kind);
            proof {
                assert(profiles@.take(i + 1).drop_last() =~= profiles@.take(i as int));
            }
            i += 1;
        }
        proof {
            assert(profiles@.take(profiles@.len() as int) =~= profiles@);
        }
    }

    /// Backend of a profile, if known.
    pub fn backend_for(&self, profile_id: u128) -> (r: Option<VpnBackendKind>)
        ensures
            r == (if self@.dom().contains(profile_id) {
                Some(self@[profile_id])
            } else {
                None
            }),
    {
        match self.map.get(&profile_id) {
            Some(k) => Some(*k),
            None => None,
        }
    }
}

/// After loading, every loaded profile's backend is known, as the last entry
/// for its id gives it; ids not loaded are unknown.
pub proof fn law_loaded_profiles_are_known(profiles: Seq<(u128, VpnBackendKind)>, id: u128)
    ensures
        loaded(profiles).dom().contains(id) <==> exists|i: int| 0 <= i < profiles.len() && #[trigger] profiles[i].0 == id,
        profiles.len() > 0 ==> loaded(profiles)[profiles.last().0] == profiles.last().1,
    decreases profiles.len(),
{
    if profiles.len() > 0 {
        law_loaded_profiles_are_known(profiles.drop_last(), id);
        let prev = profiles.drop_last();
        if exists|i: int| 0 <= i < prev.len() && #[trigger] prev[i].0 == id {
            let i = choose|i: int| 0 <= i < prev.len() && #[trigger] prev[i].0 == id;
            assert(profiles[i] == prev[i]);
        }
        if exists|i: int| 0 <= i < profiles.len() && #[trigger] profiles[i].0 == id {
            let i = choose|i: int| 0 <= i < profiles.len() && #[trigger] profiles[i].0 == id;
            if i < prev.len() {
                assert(prev[i] == profiles[i]);
            }
        }
    }
}

/// Source URL of a subscription: the list's URL, or empty.
pub fn subscription_url(url: Option<String>) -> (r: String)
    ensures
        match url {
            Some(u) => r@ == u@,
            None => r@.len() == 0,
        },
{
    match url {
        Some(u) => u,
        None => String::new(),
    }
}

/// Cache file of a filter list: its own path, else `{id}.cache` in the filter
/// cache directory.
pub fn subscription_cache_path(cache_path: Option<String>, list_id: u128, cache_dir: &str) -> (r: String)
    ensures
        match cache_path {
            Some(p) => r@ == p@,
            None => joinable_base(cache_dir@) ==> joined(cache_dir@, uuid_text(list_id) + ".cache"@, r@),
        },
{
    match cache_path {
        Some(p) => p,
        None => {
            let mut name = uuid_to_string(list_id);
            let ghost id_text = name@;
            name.append(".cache");
            proof {
                reveal_strlit(".cache");
                assert(plain_component(name@)) by {
                    crate::paths::lemma_uuid_text_plain(list_id);
                    assert forall|c: char| c == '/' || c == '\\' || c == ':' implies !name@.contains(c) by {
                        if name@.contains(c) {
                            let j = choose|j: int| 0 <= j < name@.len() && name@[j] == c;
                            if j < id_text.len() {
                                assert(id_text[j] == c);
                                assert(id_text.contains(c));
                            }
                        }
                    }
                }
            }
            path_join(cache_dir, name.as_str())
        },
    }
}

} // verus!
