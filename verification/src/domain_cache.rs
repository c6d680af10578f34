//! Domain pattern matching and the in-memory resolver cache.

use vstd::prelude::*;
use crate::text::{is_prefix_of, is_suffix_of, starts_with, ends_with, str_eq};
use crate::ids::{domain_cache_id, uuid_v5, DOMAIN_CACHE_NS, domain_cache_key};
use vstd::utf8::encode_utf8;

verus! {

/// Whether `pattern` matches `candidate`: a pattern `*.suffix` matches any
/// name ending in `.suffix` and the bare `suffix`; any other pattern matches
/// only itself.
pub open spec fn spec_matches_domain(pattern: Seq<char>, candidate: Seq<char>) -> bool {
    if is_prefix_of(seq!['*', '.'], pattern) {
        is_suffix_of(pattern.subrange(1, pattern.len() as int), candidate)
            || candidate == pattern.subrange(2, pattern.len() as int)
    } else {
        pattern == candidate
    }
}


/// Default lifetime of a remembered resolution, in seconds.
pub const DEFAULT_TTL_SECS: u64 = 300;

/// Largest number of seconds a chrono `Duration` can hold.
pub const MAX_DURATION_SECS: u64 = 9_223_372_036_854_775;

/// A remembered resolution: domain, whether it came from a wildcard, expiry
/// (milliseconds since the epoch).
pub type CachedResolution = (Seq<char>, bool, i64);

/// Key of a remembered resolution: owning app (or none) and IP address.
pub type CacheKey = (Option<u128>, Seq<char>);

pub struct MemoryEntry {
    pub domain: String,
    pub wildcard: bool,
    pub expires_at: i64,
}

struct Slot {
    app_id: Option<u128>,
    ip: String,
    entry: MemoryEntry,
}

/// A row persisted for every recorded (domain, IP) pair.
pub struct DomainCacheEntry {
    pub id: u128,
    pub app_id: Option<u128>,
    pub domain: String,
    pub ip_address: String,
    pub wildcard: bool,
    pub expires_at: i64,
    pub first_seen: i64,
    pub last_seen: i64,
    pub hit_count: u64,
}

/// A persisted resolution read back from storage.
pub struct StoredResolution {
    pub domain: String,
    pub wildcard: bool,
    pub expires_at: i64,
}

pub struct DomainResolverCache {
    ttl_secs: u64,
    slots: Vec<Slot>,
}

spec fn slot_key(s: Slot) -> CacheKey {
    (s.app_id, s.ip@)
}

spec fn slot_val(s: Slot) -> CachedResolution {
    (s.entry.domain@, s.entry.wildcard, s.entry.expires_at)
}

spec fn has_key(s: Seq<Slot>, k: CacheKey) -> bool {
    exists|i: int| 0 <= i < s.len() && #[trigger] slot_key(s[i]) == k
}

spec fn keys_unique(s: Seq<Slot>) -> bool {
    forall|i: int, j: int|
        0 <= i < s.len() && 0 <= j < s.len() && i != j ==> #[trigger] slot_key(s[i]) != #[trigger] slot_key(s[j])
}

spec fn slots_map(s: Seq<Slot>) -> Map<CacheKey, CachedResolution> {
    Map::new(
        |k: CacheKey| has_key(s, k),
        |k: CacheKey| slot_val(s[choose|i: int| 0 <= i < s.len() && #[trigger] slot_key(s[i]) == k]),
    )
}

proof fn lemma_slot_value(s: Seq<Slot>, i: int)
    requires
        keys_unique(s),
        0 <= i < s.len(),
    ensures
        slots_map(s).dom().contains(slot_key(s[i])),
        slots_map(s)[slot_key(s[i])] == slot_val(s[i]),
{
    let k = slot_key(s[i]);
    assert(has_key(s, k));
    let j = choose|j: int| 0 <= j < s.len() && #[trigger] slot_key(s[j]) == k;
    assert(slot_key(s[j]) == k);
}

/// Resolution kept in memory for `(app, ip)` at time `now`: the app-specific
/// entry if unexpired, else the app-independent entry if unexpired.
pub open spec fn spec_resolve(
    m: Map<CacheKey, CachedResolution>,
    app_id: Option<u128>,
    ip: Seq<char>,
    now: i64,
) -> Option<Seq<char>> {
    if m.dom().contains((app_id, ip)) && m[(app_id, ip)].2 > now {
        Some(m[(app_id, ip)].0)
    } else if m.dom().contains((None, ip)) && m[(None, ip)].2 > now {
        Some(m[(None, ip)].0)
    } else {
        None
    }
}

/// Memory after recording `domain` for each address of `ips`.
pub open spec fn spec_record(
    m: Map<CacheKey, CachedResolution>,
    app_id: Option<u128>,
    domain: Seq<char>,
    ips: Seq<Seq<char>>,
    expires_at: i64,
) -> Map<CacheKey, CachedResolution>
    decreases ips.len(),
{
    if ips.len() == 0 {
        m
    } else {
        spec_record(m, app_id, domain, ips.drop_last(), expires_at).insert(
            (app_id, ips.last()),
            (domain, is_prefix_of(seq!['*', '.'], domain), expires_at),
        )
    }
}

/// Memory after dropping every resolution that expired by `now`.
pub open spec fn spec_unexpired(m: Map<CacheKey, CachedResolution>, now: i64) -> Map<
    CacheKey,
    CachedResolution,
> {
    Map::new(|k: CacheKey| m.dom().contains(k) && m[k].2 > now, |k: CacheKey| m[k])
}

/// Expiry of a resolution recorded at `now` with a lifetime of `ttl_secs`.
pub open spec fn expiry_of(now: i64, ttl_secs: u64) -> int {
    now + ttl_secs * 1000
}

/// Texts of a list of addresses.
pub open spec fn ip_texts(ips: Seq<&str>) -> Seq<Seq<char>> {
    ips.map_values(|s: &str| s@)
}

impl View for DomainResolverCache {
    type V = Map<CacheKey, CachedResolution>;

    closed spec fn view(&self) -> Map<CacheKey, CachedResolution> {
        slots_map(self.slots@)
    }
}

impl DomainResolverCache {
    /// Well-formedness: no two remembered resolutions share a key.
    pub closed spec fn wf(&self) -> bool {
        keys_unique(self.slots@)
    }

    pub closed spec fn ttl(&self) -> u64 {
        self.ttl_secs
    }

    pub fn new() -> (r: Self)
        ensures
            r.wf(),
            r@ == Map::<CacheKey, CachedResolution>::empty(),
            r.ttl() == DEFAULT_TTL_SECS,
    {
        Self::with_ttl(DEFAULT_TTL_SECS)
    }

    pub fn with_ttl(ttl_secs: u64) -> (r: Self)
        ensures
            r.wf(),
            r@ == Map::<CacheKey, CachedResolution>::empty(),
            r.ttl() == ttl_secs,
    {
        let r = DomainResolverCache { ttl_secs, slots: Vec::new() };
        assert(r@ =~= Map::<CacheKey, CachedResolution>::empty());
        r
    }

    fn find(&self, app_id: Option<u128>, ip: &str) -> (r: Option<usize>)
        ensures
            match r {
                Some(i) => i < self.slots@.len() && slot_key(self.slots@[i as int]) == (app_id, ip@),
                None => !has_key(self.slots@, (app_id, ip@)),
            },
    {
        let mut i: usize = 0;
        while i < self.slots.len()
            invariant
                i <= self.slots@.len(),
                forall|j: int| 0 <= j < i ==> slot_key(#[trigger] self.slots@[j]) != (app_id, ip@),
            decreases self.slots@.len() - i,
        {
            let same_app = match (self.slots[i].app_id, app_id) {
                (Some(a), Some(b)) => a == b,
                (None, None) => true,
                _ => false,
            };
            if same_app && str_eq(self.slots[i].ip.as_str(), ip) {
                return Some(i);
            }
            i += 1;
        }
        None
    }

    fn put(&mut self, app_id: Option<u128>, ip: &str, entry: MemoryEntry)
        requires
            old(self).wf(),
        ensures
            final(self).wf(),
            final(self).ttl() == old(self).ttl(),
            final(self)@ == old(self)@.insert((app_id, ip@), (entry.domain@, entry.wildcard, entry.expires_at)),
    {
        let ghost old_s = self.slots@;
        let ghost k = (app_id, ip@);
        let ghost v = (entry.domain@, entry.wildcard, entry.expires_at);
        let slot = Slot { app_id, ip: String::from_str(ip), entry };
        match self.find(app_id, ip) {
            Some(i) => {
                self.slots.set(i, slot);
                proof {
                    let s = self.slots@;
                    assert(keys_unique(s)) by {
                        assert forall|a: int, b: int|
                            0 <= a < s.len() && 0 <= b < s.len() && a != b implies
                            #[trigger] slot_key(s[a]) != #[trigger] slot_key(s[b]) by {
                            if a != i && b != i {
                                assert(slot_key(s[a]) == slot_key(old_s[a]));
                                assert(slot_key(s[b]) == slot_key(old_s[b]));
                            } else if a == i {
                                assert(slot_key(s[a]) == slot_key(old_s[a]));
                                assert(slot_key(s[b]) == slot_key(old_s[b]));
                            } else {
                                assert(slot_key(s[a]) == slot_key(old_s[a]));
                                assert(slot_key(s[b]) == slot_key(old_s[b]));
                            }
                        }
                    }
                    Self::lemma_map_after_set(old_s, s, i as int, k, v);
                }
            },
            None => {
                self.slots.push(slot);
                proof {
                    let s = self.slots@;
                    assert(keys_unique(s)) by {
                        assert forall|a: int, b: int|
                            0 <= a < s.len() && 0 <= b < s.len() && a != b implies
                            #[trigger] slot_key(s[a]) != #[trigger] slot_key(s[b]) by {
                            if a < old_s.len() && b < old_s.len() {
                                assert(s[a] == old_s[a]);
                                assert(s[b] == old_s[b]);
                            } else if a < old_s.len() {
                                assert(s[a] == old_s[a]);
                                assert(slot_key(old_s[a]) != k);
                            } else {
                                assert(s[b] == old_s[b]);
                                assert(slot_key(old_s[b]) != k);
                            }
                        }
                    }
                    Self::lemma_map_after_push(old_s, s, k, v);
                }
            },
        }
    }

    proof fn lemma_map_after_set(old_s: Seq<Slot>, s: Seq<Slot>, i: int, k: CacheKey, v: CachedResolution)
        requires
            keys_unique(old_s),
            keys_unique(s),
            0 <= i < old_s.len(),
            s.len() == old_s.len(),
            slot_key(old_s[i]) == k,
            slot_key(s[i]) == k,
            slot_val(s[i]) == v,
            forall|j: int| 0 <= j < s.len() && j != i ==> s[j] == old_s[j],
        ensures
            slots_map(s) == slots_map(old_s).insert(k, v),
    {
        let m1 = slots_map(s);
        let m0 = slots_map(old_s).insert(k, v);
        assert forall|q: CacheKey| m1.dom().contains(q) <==> m0.dom().contains(q) by {
            if m1.dom().contains(q) {
                let j = choose|j: int| 0 <= j < s.len() && #[trigger] slot_key(s[j]) == q;
                if j != i {
                    assert(slot_key(old_s[j]) == q);
                    assert(has_key(old_s, q));
                }
            }
            if m0.dom().contains(q) && q != k {
                let j = choose|j: int| 0 <= j < old_s.len() && #[trigger] slot_key(old_s[j]) == q;
                assert(j != i);
                assert(slot_key(s[j]) == q);
                assert(has_key(s, q));
            }
            if q == k {
                assert(slot_key(s[i]) == q);
                assert(has_key(s, q));
            }
        }
        assert forall|q: CacheKey| m1.dom().contains(q) implies m1[q] == m0[q] by {
            let j = choose|j: int| 0 <= j < s.len() && #[trigger] slot_key(s[j]) == q;
            lemma_slot_value(s, j);
            if j != i {
                lemma_slot_value(old_s, j);
            }
        }
        assert(m1 =~= m0);
    }

    proof fn lemma_map_after_push(old_s: Seq<Slot>, s: Seq<Slot>, k: CacheKey, v: CachedResolution)
        requires
            keys_unique(old_s),
            keys_unique(s),
            !has_key(old_s, k),
            s.len() == old_s.len() + 1,
            slot_key(s[old_s.len() as int]) == k,
            slot_val(s[old_s.len() as int]) == v,
            forall|j: int| 0 <= j < old_s.len() ==> s[j] == old_s[j],
        ensures
            slots_map(s) == slots_map(old_s).insert(k, v),
    {
        let m1 = slots_map(s);
        let m0 = slots_map(old_s).insert(k, v);
        let n = old_s.len() as int;
        assert forall|q: CacheKey| m1.dom().contains(q) <==> m0.dom().contains(q) by {
            if m1.dom().contains(q) {
                let j = choose|j: int| 0 <= j < s.len() && #[trigger] slot_key(s[j]) == q;
                if j != n {
                    assert(slot_key(old_s[j]) == q);
                    assert(has_key(old_s, q));
                }
            }
            if m0.dom().contains(q) && q != k {
                let j = choose|j: int| 0 <= j < old_s.len() && #[trigger] slot_key(old_s[j]) == q;
                assert(slot_key(s[j]) == q);
                assert(has_key(s, q));
            }
            if q == k {
                assert(slot_key(s[n]) == q);
                assert(has_key(s, q));
            }
        }
        assert forall|q: CacheKey| m1.dom().contains(q) implies m1[q] == m0[q] by {
            let j = choose|j: int| 0 <= j < s.len() && #[trigger] slot_key(s[j]) == q;
            lemma_slot_value(s, j);
            if j != n {
                lemma_slot_value(old_s, j);
            }
        }
        assert(m1 =~= m0);
    }

    /// Records that `domain` resolved to each address of `ips` at time `now`
    /// (milliseconds since the epoch); returns the rows to persist, one per address.
    pub fn record_dns(&mut self, app_id: Option<u128>, domain: &str, ips: &[&str], now: i64) -> (rows: Vec<
        DomainCacheEntry,
    >)
        requires
            old(self).wf(),
            old(self).ttl() <= MAX_DURATION_SECS,
            expiry_of(now, old(self).ttl()) <= i64::MAX,
        ensures
            final(self).wf(),
            final(self).ttl() == old(self).ttl(),
            final(self)@ == spec_record(
                old(self)@,
                app_id,
                domain@,
                ip_texts(ips@),
                expiry_of(now, old(self).ttl()) as i64,
            ),
            rows@.len() == ips@.len(),
            forall|i: int|
                0 <= i < ips@.len() ==> {
                    let row = #[trigger] rows@[i];
                    &&& row.id == uuid_v5(DOMAIN_CACHE_NS, encode_utf8(domain_cache_key(app_id, ips@[i]@)))
                    &&& row.app_id == app_id
                    &&& row.domain@ == domain@
                    &&& row.ip_address@ == ips@[i]@
                    &&& row.wildcard == is_prefix_of(seq!['*', '.'], domain@)
                    &&& row.expires_at == expiry_of(now, old(self).ttl())
                    &&& row.first_seen == now
                    &&& row.last_seen == now
                    &&& row.hit_count == 1
                },
    {
        proof {
            reveal_strlit("*.");
            assert("*."@ =~= seq!['*', '.']);
        }
        let wildcard = starts_with(domain, "*.");
        let expires_at = now + (self.ttl_secs as i64) * 1000;
        let ghost texts = ip_texts(ips@);
        let ghost m0 = self@;
        let mut rows: Vec<DomainCacheEntry> = Vec::new();
        let mut i: usize = 0;
        while i < ips.len()
            invariant
                self.wf(),
                self.ttl() == old(self).ttl(),
                texts == ip_texts(ips@),
                m0 == old(self)@,
                i <= ips@.len(),
                expires_at == expiry_of(now, old(self).ttl()),
                wildcard == is_prefix_of(seq!['*', '.'], domain@),
                self@ == spec_record(m0, app_id, domain@, texts.take(i as int), expires_at),
                rows@.len() == i,
                forall|j: int|
                    0 <= j < i ==> {
                        let row = #[trigger] rows@[j];
                        &&& row.id == uuid_v5(DOMAIN_CACHE_NS, encode_utf8(domain_cache_key(app_id, ips@[j]@)))
                        &&& row.app_id == app_id
                        &&& row.domain@ == domain@
                        &&& row.ip_address@ == ips@[j]@
                        &&& row.wildcard == wildcard
                        &&& row.expires_at == expires_at
                        &&& row.first_seen == now
                        &&& row.last_seen == now
                        &&& row.hit_count == 1
                    },
            decreases ips@.len() - i,
        {
            let ip = ips[i];
            let entry = MemoryEntry { domain: String::from_str(domain), wildcard, expires_at };
            self.put(app_id, ip, entry);
            proof {
                assert(texts.take(i + 1).drop_last() =~= texts.take(i as int));
                assert(texts.take(i + 1).last() == ip@);
            }
            rows.push(DomainCacheEntry {
                id: domain_cache_id(app_id, ip),
                app_id,
                domain: String::from_str(domain),
                ip_address: String::from_str(ip),
                wildcard,
                expires_at,
                first_seen: now,
                last_seen: now,
                hit_count: 1,
            });
            i += 1;
        }
        assert(texts.take(ips@.len() as int) =~= texts);
        rows
    }

    /// Same as [`Self::record_dns`] for owned address strings.
    pub fn record_dns_strings(&mut self, app_id: Option<u128>, domain: &str, ips: &[String], now: i64) -> (rows: Vec<
        DomainCacheEntry,
    >)
        requires
            old(self).wf(),
            old(self).ttl() <= MAX_DURATION_SECS,
            expiry_of(now, old(self).ttl()) <= i64::MAX,
        ensures
            final(self).wf(),
            final(self).ttl() == old(self).ttl(),
            final(self)@ == spec_record(
                old(self)@,
                app_id,
                domain@,
                ips@.map_values(|s: String| s@),
                expiry_of(now, old(self).ttl()) as i64,
            ),
            rows@.len() == ips@.len(),
            forall|i: int|
                0 <= i < ips@.len() ==> {
                    let row = #[trigger] rows@[i];
                    &&& row.id == uuid_v5(DOMAIN_CACHE_NS, encode_utf8(domain_cache_key(app_id, ips@[i]@)))
                    &&& row.app_id == app_id
                    &&& row.domain@ == domain@
                    &&& row.ip_address@ == ips@[i]@
                    &&& row.wildcard == is_prefix_of(seq!['*', '.'], domain@)
                    &&& row.expires_at == expiry_of(now, old(self).ttl())
                    &&& row.first_seen == now
                    &&& row.last_seen == now
                    &&& row.hit_count == 1
                },
    {
        let mut refs: Vec<&str> = Vec::new();
        let mut i: usize = 0;
        while i < ips.len()
            invariant
                i <= ips@.len(),
                refs@.len() == i,
                forall|j: int| 0 <= j < i ==> (#[trigger] refs@[j])@ == ips@[j]@,
            decreases ips@.len() - i,
        {
            refs.push(ips[i].as_str());
            i += 1;
        }
        assert(ip_texts(refs@) =~= ips@.map_values(|s: String| s@));
        self.record_dns(app_id, domain, refs.as_slice(), now)
    }

    /// Domain remembered in memory for `ip` at time `now`: the entry of `app_id`
    /// if unexpired, else the app-independent entry if unexpired.
    pub fn resolve_ip_to_domain(&self, app_id: Option<u128>, ip: &str, now: i64) -> (r: Option<String>)
        requires
            self.wf(),
        ensures
            r.is_some() == spec_resolve(self@, app_id, ip@, now).is_some(),
            r matches Some(d) ==> spec_resolve(self@, app_id, ip@, now) == Some(d@),
    {
        if let Some(i) = self.find(app_id, ip) {
            proof { lemma_slot_value(self.slots@, i as int); }
            if self.slots[i].entry.expires_at > now {
                return Some(self.slots[i].entry.domain.clone());
            }
        }
        if let Some(i) = self.find(None, ip) {
            proof { lemma_slot_value(self.slots@, i as int); }
            if self.slots[i].entry.expires_at > now {
                return Some(self.slots[i].entry.domain.clone());
            }
        }
        None
    }

    /// Remembers a resolution read back from storage and returns its domain.
    pub fn remember_stored(&mut self, app_id: Option<u128>, ip: &str, stored: StoredResolution) -> (r: String)
        requires
            old(self).wf(),
        ensures
            final(self).wf(),
            final(self).ttl() == old(self).ttl(),
            final(self)@ == old(self)@.insert((app_id, ip@), (stored.domain@, stored.wildcard, stored.expires_at)),
            r@ == stored.domain@,
    {
        let domain = stored.domain.clone();
        self.put(app_id, ip, MemoryEntry { domain: stored.domain, wildcard: stored.wildcard, expires_at: stored.expires_at });
        domain
    }

    /// Drops every remembered resolution that expired by `now`.
    pub fn purge_expired(&mut self, now: i64)
        requires
            old(self).wf(),
        ensures
            final(self).wf(),
            final(self).ttl() == old(self).ttl(),
            final(self)@ == spec_unexpired(old(self)@, now),
    {
        let ghost old_s = self.slots@;
        let mut kept: Vec<Slot> = Vec::new();
        let mut i: usize = 0;
        while i < self.slots.len()
            invariant
                self.slots@ == old_s,
                keys_unique(old_s),
                i <= old_s.len(),
                keys_unique(kept@),
                forall|j: int|
                    0 <= j < kept@.len() ==> exists|a: int|
                        0 <= a < i && slot_key(#[trigger] kept@[j]) == slot_key(old_s[a]) && slot_val(kept@[j])
                            == slot_val(old_s[a]) && old_s[a].entry.expires_at > now,
                forall|a: int|
                    0 <= a < i && old_s[a].entry.expires_at > now ==> exists|j: int|
                        0 <= j < kept@.len() && slot_key(kept@[j]) == slot_key(#[trigger] old_s[a]),
            decreases old_s.len() - i,
        {
            if self.slots[i].entry.expires_at > now {
                let s = &self.slots[i];
                let copy = Slot {
                    app_id: s.app_id,
                    ip: s.ip.clone(),
                    entry: MemoryEntry {
                        domain: s.entry.domain.clone(),
                        wildcard: s.entry.wildcard,
                        expires_at: s.entry.expires_at,
                    },
                };
                let ghost before = kept@;
                kept.push(copy);
                proof {
                    let ks = kept@;
                    let n = before.len() as int;
                    assert(slot_key(ks[n]) == slot_key(old_s[i as int]));
                    assert(slot_val(ks[n]) == slot_val(old_s[i as int]));
                    assert forall|x: int, y: int|
                        0 <= x < ks.len() && 0 <= y < ks.len() && x != y implies
                        #[trigger] slot_key(ks[x]) != #[trigger] slot_key(ks[y]) by {
                        if x < n && y < n {
                            assert(ks[x] == before[x]);
                            assert(ks[y] == before[y]);
                        } else if x < n {
                            assert(ks[x] == before[x]);
                            let a = choose|a: int|
                                0 <= a < i && slot_key(#[trigger] before[x]) == slot_key(old_s[a]) && slot_val(before[x])
                                    == slot_val(old_s[a]) && old_s[a].entry.expires_at > now;
                            assert(slot_key(old_s[a]) != slot_key(old_s[i as int]));
                        } else {
                            assert(ks[y] == before[y]);
                            let a = choose|a: int|
                                0 <= a < i && slot_key(#[trigger] before[y]) == slot_key(old_s[a]) && slot_val(before[y])
                                    == slot_val(old_s[a]) && old_s[a].entry.expires_at > now;
                            assert(slot_key(old_s[a]) != slot_key(old_s[i as int]));
                        }
                    }
                    assert forall|j: int| 0 <= j < ks.len() implies exists|a: int|
                        0 <= a < i + 1 && slot_key(#[trigger] ks[j]) == slot_key(old_s[a]) && slot_val(ks[j])
                            == slot_val(old_s[a]) && old_s[a].entry.expires_at > now by {
                        if j < n {
                            assert(ks[j] == before[j]);
                        } else {
                            assert(slot_key(ks[j]) == slot_key(old_s[i as int]));
                        }
                    }
                    assert forall|a: int| 0 <= a < i + 1 && old_s[a].entry.expires_at > now implies exists|j: int|
                        0 <= j < ks.len() && slot_key(ks[j]) == slot_key(#[trigger] old_s[a]) by {
                        if a < i {
                            let j = choose|j: int| 0 <= j < before.len() && slot_key(before[j]) == slot_key(#[trigger] old_s[a]);
                            assert(ks[j] == before[j]);
                        } else {
                            assert(slot_key(ks[n]) == slot_key(old_s[a]));
                        }
                    }
                }
            }
            i += 1;
        }
        self.slots = kept;
        proof {
            let s = self.slots@;
            let m1 = slots_map(s);
            let m0 = spec_unexpired(slots_map(old_s), now);
            assert forall|q: CacheKey| m1.dom().contains(q) <==> m0.dom().contains(q) by {
                if m1.dom().contains(q) {
                    let j = choose|j: int| 0 <= j < s.len() && #[trigger] slot_key(s[j]) == q;
                    let a = choose|a: int|
                        0 <= a < old_s.len() && slot_key(#[trigger] s[j]) == slot_key(old_s[a]) && slot_val(s[j])
                            == slot_val(old_s[a]) && old_s[a].entry.expires_at > now;
                    lemma_slot_value(old_s, a);
                }
                if m0.dom().contains(q) {
                    let a = choose|a: int| 0 <= a < old_s.len() && #[trigger] slot_key(old_s[a]) == q;
                    lemma_slot_value(old_s, a);
                    let j = choose|j: int| 0 <= j < s.len() && slot_key(s[j]) == slot_key(#[trigger] old_s[a]);
                    assert(has_key(s, q));
                }
            }
            assert forall|q: CacheKey| m1.dom().contains(q) implies m1[q] == m0[q] by {
                let j = choose|j: int| 0 <= j < s.len() && #[trigger] slot_key(s[j]) == q;
                lemma_slot_value(s, j);
                let a = choose|a: int|
                    0 <= a < old_s.len() && slot_key(#[trigger] s[j]) == slot_key(old_s[a]) && slot_val(s[j])
                        == slot_val(old_s[a]) && old_s[a].entry.expires_at > now;
                lemma_slot_value(old_s, a);
            }
            assert(m1 =~= m0);
        }
    }

    fn domain_matches_wildcard(pattern: &str, candidate: &str) -> (r: bool)
        ensures
            r == spec_matches_domain(pattern@, candidate@),
    {
        proof {
            reveal_strlit("*.");
            assert("*."@ =~= seq!['*', '.']);
        }
        if !starts_with(pattern, "*.") {
            return str_eq(pattern, candidate);
        }
        let n = pattern.unicode_len();
        let suffix = pattern.substring_char(1, n);
        let bare = pattern.substring_char(2, n);
        ends_with(candidate, suffix) || str_eq(candidate, bare)
    }

    /// Matches a domain against a pattern that may be a `*.` wildcard.
    pub fn matches_domain(pattern: &str, candidate: &str) -> (r: bool)
        ensures
            r == spec_matches_domain(pattern@, candidate@),
    {
        proof {
            reveal_strlit("*.");
            assert("*."@ =~= seq!['*', '.']);
        }
        if starts_with(pattern, "*.") {
            Self::domain_matches_wildcard(pattern, candidate)
        } else {
            str_eq(pattern, candidate)
        }
    }
}

} // verus!

verus! {

proof fn lemma_record_contains(
    m: Map<CacheKey, CachedResolution>,
    app_id: Option<u128>,
    domain: Seq<char>,
    ips: Seq<Seq<char>>,
    expires_at: i64,
    k: int,
)
    requires
        0 <= k < ips.len(),
    ensures
        spec_record(m, app_id, domain, ips, expires_at).dom().contains((app_id, ips[k])),
        spec_record(m, app_id, domain, ips, expires_at)[(app_id, ips[k])] == (
            domain,
            is_prefix_of(seq!['*', '.'], domain),
            expires_at,
        ),
    decreases ips.len(),
{
    if k != ips.len() - 1 && ips[k] != ips.last() {
        lemma_record_contains(m, app_id, domain, ips.drop_last(), expires_at, k);
    }
}

/// Recording a resolution makes every recorded address resolve to the recorded
/// domain for the owning app until the entry expires.
pub proof fn law_recorded_address_resolves(
    m: Map<CacheKey, CachedResolution>,
    app_id: Option<u128>,
    domain: Seq<char>,
    ips: Seq<Seq<char>>,
    expires_at: i64,
    k: int,
    now: i64,
)
    requires
        0 <= k < ips.len(),
        now < expires_at,
    ensures
        spec_resolve(spec_record(m, app_id, domain, ips, expires_at), app_id, ips[k], now) == Some(domain),
{
    lemma_record_contains(m, app_id, domain, ips, expires_at, k);
}

/// Purging expired entries at time `now` never changes what an address
/// resolves to at that time.
pub proof fn law_purge_keeps_live_resolutions(
    m: Map<CacheKey, CachedResolution>,
    app_id: Option<u128>,
    ip: Seq<char>,
    now: i64,
)
    ensures
        spec_resolve(spec_unexpired(m, now), app_id, ip, now) == spec_resolve(m, app_id, ip, now),
{
}

} // verus!
