//! Application registry: the process-id caches, the executable hash cache and
//! the decisions taken when a process is resolved to a registered application.

use vstd::prelude::*;
use std::collections::HashMap;
use crate::routing::AppRecord;
use crate::text::{decimal, push_decimal, str_eq};
use crate::error::ServiceError;

verus! {

broadcast use vstd::std_specs::hash::group_hash_axioms;

/// How long a successful resolution stays valid (milliseconds).
pub const PID_CACHE_TTL_MS: u64 = 60_000;

/// How long a failed resolution is remembered (milliseconds).
pub const PID_NEG_CACHE_TTL_MS: u64 = 30_000;

/// `last_seen` is rewritten only when at least this stale (seconds).
pub const LAST_SEEN_REFRESH_SECS: i64 = 300;

/// Size at which the process-id caches drop their stale entries.
pub const PID_CACHE_MAX: usize = 8192;

/// Size at which the hash cache is emptied.
pub const SHA_CACHE_MAX: usize = 4096;

/// Time elapsed from `at` to `now` on a monotonic clock (never negative).
pub open spec fn elapsed(at: u64, now: u64) -> int {
    if now >= at {
        now - at
    } else {
        0
    }
}

/// Whether an entry stored at `at` is still valid at `now`.
pub open spec fn fresh_at(at: u64, now: u64, ttl: u64) -> bool {
    elapsed(at, now) < ttl
}

/// The entries of `m` that are still valid at `now`.
pub open spec fn spec_fresh_entries<V>(m: Map<u32, (V, u64)>, now: u64, ttl: u64) -> Map<u32, (V, u64)> {
    Map::new(|k: u32| m.dom().contains(k) && fresh_at(m[k].1, now, ttl), |k: u32| m[k])
}

/// Contents after storing `v` for `pid` at `now`: a full cache first drops its
/// stale entries.
pub open spec fn spec_after_insert<V>(
    m: Map<u32, (V, u64)>,
    pid: u32,
    v: V,
    now: u64,
    ttl: u64,
    max_len: usize,
) -> Map<u32, (V, u64)> {
    (if m.len() >= max_len {
        spec_fresh_entries(m, now, ttl)
    } else {
        m
    }).insert(pid, (v, now))
}

/// Membership after a push.
proof fn lemma_push_contains<A>(s: Seq<A>, x: A, k: A)
    ensures
        s.push(x).contains(k) <==> (s.contains(k) || k == x),
{
    if s.contains(k) {
        let j = choose|j: int| 0 <= j < s.len() && s[j] == k;
        assert(s.push(x)[j] == k);
    }
    if k == x {
        assert(s.push(x)[s.len() as int] == x);
    }
    if s.push(x).contains(k) {
        let j = choose|j: int| 0 <= j < s.push(x).len() && s.push(x)[j] == k;
        if j < s.len() {
            assert(s[j] == k);
        }
    }
}

/// Pushing an absent element keeps a sequence free of duplicates.
proof fn lemma_push_no_duplicates<A>(s: Seq<A>, x: A)
    requires
        s.no_duplicates(),
        !s.contains(x),
    ensures
        s.push(x).no_duplicates(),
{
    let t = s.push(x);
    assert forall|i: int, j: int| 0 <= i < t.len() && 0 <= j < t.len() && i != j implies t[i] != t[j] by {
        if i < s.len() && j < s.len() {
            assert(t[i] == s[i] && t[j] == s[j]);
        } else if i < s.len() {
            assert(t[i] == s[i]);
        } else if j < s.len() {
            assert(t[j] == s[j]);
        }
    }
}

/// A cache keyed by process id whose entries expire a fixed time after they
/// were stored. Times are milliseconds of a monotonic clock.
pub struct TimedCache<V> {
    entries: HashMap<u32, (V, u64)>,
    pids: Vec<u32>,
    ttl_ms: u64,
    max_len: usize,
}

impl<V> View for TimedCache<V> {
    type V = Map<u32, (V, u64)>;

    closed spec fn view(&self) -> Map<u32, (V, u64)> {
        self.entries@
    }
}

impl<V> TimedCache<V> {
    /// Well-formedness: the key list holds each cached process id once.
    pub closed spec fn wf(&self) -> bool {
        &&& self.pids@.no_duplicates()
        &&& forall|k: u32| self.entries@.dom().contains(k) <==> self.pids@.contains(k)
    }

    pub closed spec fn ttl(&self) -> u64 {
        self.ttl_ms
    }

    pub closed spec fn max_len(&self) -> usize {
        self.max_len
    }

    pub fn new(ttl_ms: u64, max_len: usize) -> (r: Self)
        ensures
            r.wf(),
            r@ == Map::<u32, (V, u64)>::empty(),
            r.ttl() == ttl_ms,
            r.max_len() == max_len,
    {
        TimedCache { entries: HashMap::new(), pids: Vec::new(), ttl_ms, max_len }
    }

    pub fn len(&self) -> (r: usize)
        requires
            self.wf(),
        ensures
            r == self@.len(),
    {
        self.entries.len()
    }

    /// The value stored for `pid`, if it is still valid at `now`.
    pub fn get(&self, pid: u32, now: u64) -> (r: Option<&V>)
        ensures
            match r {
                Some(v) => self@.dom().contains(pid) && fresh_at(self@[pid].1, now, self.ttl()) && *v
                    == self@[pid].0,
                None => !(self@.dom().contains(pid) && fresh_at(self@[pid].1, now, self.ttl())),
            },
    {
        match self.entries.get(&pid) {
            Some(e) => {
                let age = if now >= e.1 {
                    now - e.1
                } else {
                    0
                };
                if age < self.ttl_ms {
                    Some(&e.0)
                } else {
                    None
                }
            },
            None => None,
        }
    }

    /// Whether a still valid entry is stored for `pid`.
    pub fn contains_fresh(&self, pid: u32, now: u64) -> (r: bool)
        ensures
            r == (self@.dom().contains(pid) && fresh_at(self@[pid].1, now, self.ttl())),
    {
        match self.get(pid, now) {
            Some(_) => true,
            None => false,
        }
    }

    /// Drops the entries no longer valid at `now`.
    pub fn retain_fresh(&mut self, now: u64)
        requires
            old(self).wf(),
        ensures
            final(self).wf(),
            final(self)@ == spec_fresh_entries(old(self)@, now, old(self).ttl()),
            final(self).ttl() == old(self).ttl(),
            final(self).max_len() == old(self).max_len(),
    {
        let ghost m0 = self.entries@;
        let ghost p0 = self.pids@;
        let ttl = self.ttl_ms;
        let ghost ml = self.max_len;
        let mut kept: Vec<u32> = Vec::new();
        let n = self.pids.len();
        let mut i: usize = 0;
        while i < n
            invariant
                n == p0.len(),
                i <= n,
                self.pids@ == p0,
                self.ttl_ms == ttl,
                self.max_len == ml,
                p0.no_duplicates(),
                forall|k: u32| m0.dom().contains(k) <==> p0.contains(k),
                forall|k: u32|
                    #![trigger self.entries@.dom().contains(k)]
                    self.entries@.dom().contains(k) <==> (m0.dom().contains(k) && (p0.subrange(
                        0,
                        i as int,
                    ).contains(k) ==> fresh_at(m0[k].1, now, ttl))),
                forall|k: u32| #[trigger] self.entries@.dom().contains(k) ==> self.entries@[k] == m0[k],
                kept@.no_duplicates(),
                forall|k: u32|
                    #[trigger] kept@.contains(k) <==> (p0.subrange(0, i as int).contains(k) && fresh_at(
                        m0[k].1,
                        now,
                        ttl,
                    )),
            decreases n - i,
        {
            let k = self.pids[i];
            proof {
                assert(p0.subrange(0, i + 1) =~= p0.subrange(0, i as int).push(k));
                assert(!p0.subrange(0, i as int).contains(k)) by {
                    if p0.subrange(0, i as int).contains(k) {
                        let j = choose|j: int| 0 <= j < i && p0.subrange(0, i as int)[j] == k;
                        assert(p0[j] == p0[i as int]);
                    }
                }
                assert(p0[i as int] == k);
                assert(p0.contains(k));
                assert(m0.dom().contains(k));
                assert forall|x: u32| p0.subrange(0, i + 1).contains(x) <==> (p0.subrange(0, i as int).contains(x)
                    || x == k) by {
                    lemma_push_contains(p0.subrange(0, i as int), k, x);
                }
                assert forall|x: u32| kept@.push(k).contains(x) <==> (kept@.contains(x) || x == k) by {
                    lemma_push_contains(kept@, k, x);
                }
                if !kept@.contains(k) {
                    lemma_push_no_duplicates(kept@, k);
                }
            }
            let keep = match self.entries.get(&k) {
                Some(e) => {
                    let age = if now >= e.1 {
                        now - e.1
                    } else {
                        0
                    };
                    age < ttl
                },
                None => false,
            };
            assert(self.entries@.dom().contains(k));
            assert(keep == fresh_at(m0[k].1, now, ttl));
            let ghost kept0 = kept@;
            if keep {
                kept.push(k);
            } else {
                self.entries.remove(&k);
            }
            proof {
                assert forall|x: u32|
                    #[trigger] kept@.contains(x) <==> (p0.subrange(0, i + 1).contains(x) && fresh_at(
                        m0[x].1,
                        now,
                        ttl,
                    )) by {
                    lemma_push_contains(p0.subrange(0, i as int), k, x);
                    lemma_push_contains(kept0, k, x);
                    assert(kept0.contains(x) <==> (p0.subrange(0, i as int).contains(x) && fresh_at(
                        m0[x].1,
                        now,
                        ttl,
                    )));
                }
            }
            i += 1;
        }
        proof {
            assert(p0.subrange(0, n as int) =~= p0);
            assert(self.entries@ =~= spec_fresh_entries(m0, now, ttl));
        }
        self.pids = kept;
    }

    /// Stores `v` for `pid` at `now`; a full cache first drops its stale entries.
    pub fn insert(&mut self, pid: u32, v: V, now: u64)
        requires
            old(self).wf(),
        ensures
            final(self).wf(),
            final(self)@ == spec_after_insert(old(self)@, pid, v, now, old(self).ttl(), old(self).max_len()),
            final(self).ttl() == old(self).ttl(),
            final(self).max_len() == old(self).max_len(),
    {
        if self.entries.len() >= self.max_len {
            self.retain_fresh(now);
        }
        let had = self.entries.contains_key(&pid);
        self.entries.insert(pid, (v, now));
        if !had {
            let ghost p = self.pids@;
            self.pids.push(pid);
            proof {
                lemma_push_no_duplicates(p, pid);
                assert forall|k: u32| self.entries@.dom().contains(k) <==> self.pids@.contains(k) by {
                    lemma_push_contains(p, pid, k);
                }
            }
        }
    }
}

/// A process resolved to a registered application.
pub struct AppIdentity {
    pub pid: u32,
    pub record: AppRecord,
}

impl AppIdentity {
    pub fn new(pid: u32, record: AppRecord) -> (r: AppIdentity)
        ensures
            r.pid == pid,
            r.record == record,
    {
        AppIdentity { pid, record }
    }

    /// Id of the application.
    pub fn id(&self) -> (r: u128)
        ensures
            r == self.record.app_id,
    {
        self.record.app_id
    }
}

/// The entries of `m` that do not belong to `app_id`.
pub open spec fn spec_without_app(m: Map<u32, (AppIdentity, u64)>, app_id: u128) -> Map<u32, (AppIdentity, u64)> {
    Map::new(|k: u32| m.dom().contains(k) && m[k].0.record.app_id != app_id, |k: u32| m[k])
}

impl TimedCache<AppIdentity> {
    /// Drops the cached resolutions of an application.
    pub fn invalidate_app(&mut self, app_id: u128)
        requires
            old(self).wf(),
        ensures
            final(self).wf(),
            final(self)@ == spec_without_app(old(self)@, app_id),
            final(self).ttl() == old(self).ttl(),
            final(self).max_len() == old(self).max_len(),
    {
        let ghost m0 = self.entries@;
        let ghost p0 = self.pids@;
        let ghost ttl = self.ttl_ms;
        let ghost ml = self.max_len;
        let mut kept: Vec<u32> = Vec::new();
        let n = self.pids.len();
        let mut i: usize = 0;
        while i < n
            invariant
                n == p0.len(),
                i <= n,
                self.pids@ == p0,
                self.ttl_ms == ttl,
                self.max_len == ml,
                p0.no_duplicates(),
                forall|k: u32| m0.dom().contains(k) <==> p0.contains(k),
                forall|k: u32|
                    #![trigger self.entries@.dom().contains(k)]
                    self.entries@.dom().contains(k) <==> (m0.dom().contains(k) && (p0.subrange(
                        0,
                        i as int,
                    ).contains(k) ==> m0[k].0.record.app_id != app_id)),
                forall|k: u32| #[trigger] self.entries@.dom().contains(k) ==> self.entries@[k] == m0[k],
                kept@.no_duplicates(),
                forall|k: u32|
                    #[trigger] kept@.contains(k) <==> (p0.subrange(0, i as int).contains(k)
                        && m0[k].0.record.app_id != app_id),
            decreases n - i,
        {
            let k = self.pids[i];
            proof {
                assert(p0.subrange(0, i + 1) =~= p0.subrange(0, i as int).push(k));
                assert(!p0.subrange(0, i as int).contains(k)) by {
                    if p0.subrange(0, i as int).contains(k) {
                        let j = choose|j: int| 0 <= j < i && p0.subrange(0, i as int)[j] == k;
                        assert(p0[j] == p0[i as int]);
                    }
                }
                assert(p0[i as int] == k);
                assert(p0.contains(k));
                if !kept@.contains(k) {
                    lemma_push_no_duplicates(kept@, k);
                }
            }
            let keep = match self.entries.get(&k) {
                Some(e) => e.0.record.app_id != app_id,
                None => false,
            };
            assert(self.entries@.dom().contains(k));
            let ghost kept0 = kept@;
            if keep {
                kept.push(k);
            } else {
                self.entries.remove(&k);
            }
            proof {
                assert forall|x: u32|
                    #[trigger] kept@.contains(x) <==> (p0.subrange(0, i + 1).contains(x)
                        && m0[x].0.record.app_id != app_id) by {
                    lemma_push_contains(p0.subrange(0, i as int), k, x);
                    lemma_push_contains(kept0, k, x);
                    assert(kept0.contains(x) <==> (p0.subrange(0, i as int).contains(x)
                        && m0[x].0.record.app_id != app_id));
                }
                assert forall|x: u32| p0.subrange(0, i + 1).contains(x) <==> (p0.subrange(0, i as int).contains(x)
                    || x == k) by {
                    lemma_push_contains(p0.subrange(0, i as int), k, x);
                }
            }
            i += 1;
        }
        proof {
            assert(p0.subrange(0, n as int) =~= p0);
            assert(self.entries@ =~= spec_without_app(m0, app_id));
        }
        self.pids = kept;
    }
}

/// What is remembered of an executable's hash: modification time (nanoseconds
/// from the epoch, where the file system gives one), size and the hash.
pub type ShaView = (Option<i128>, u64, Seq<char>);

struct ShaEntry {
    path: String,
    mtime: Option<i128>,
    size: u64,
    hash: String,
}

spec fn sha_key(e: ShaEntry) -> Seq<char> {
    e.path@
}

spec fn sha_val(e: ShaEntry) -> ShaView {
    (e.mtime, e.size, e.hash@)
}

spec fn sha_has(s: Seq<ShaEntry>, k: Seq<char>) -> bool {
    exists|i: int| 0 <= i < s.len() && #[trigger] sha_key(s[i]) == k
}

spec fn sha_unique(s: Seq<ShaEntry>) -> bool {
    forall|i: int, j: int|
        0 <= i < s.len() && 0 <= j < s.len() && i != j ==> #[trigger] sha_key(s[i]) != #[trigger] sha_key(s[j])
}

spec fn sha_map(s: Seq<ShaEntry>) -> Map<Seq<char>, ShaView> {
    Map::new(
        |k: Seq<char>| sha_has(s, k),
        |k: Seq<char>| sha_val(s[choose|i: int| 0 <= i < s.len() && #[trigger] sha_key(s[i]) == k]),
    )
}

proof fn lemma_sha_value(s: Seq<ShaEntry>, i: int)
    requires
        sha_unique(s),
        0 <= i < s.len(),
    ensures
        sha_map(s).dom().contains(sha_key(s[i])),
        sha_map(s)[sha_key(s[i])] == sha_val(s[i]),
{
    let k = sha_key(s[i]);
    assert(sha_has(s, k));
    let j = choose|j: int| 0 <= j < s.len() && #[trigger] sha_key(s[j]) == k;
    assert(sha_key(s[j]) == k);
}

proof fn lemma_sha_after_set(old_s: Seq<ShaEntry>, s: Seq<ShaEntry>, i: int)
    requires
        sha_unique(old_s),
        0 <= i < old_s.len(),
        s.len() == old_s.len(),
        sha_key(s[i]) == sha_key(old_s[i]),
        forall|j: int| 0 <= j < s.len() && j != i ==> s[j] == old_s[j],
    ensures
        sha_unique(s),
        sha_map(s) == sha_map(old_s).insert(sha_key(s[i]), sha_val(s[i])),
{
    let k = sha_key(s[i]);
    assert forall|a: int, b: int|
        0 <= a < s.len() && 0 <= b < s.len() && a != b implies #[trigger] sha_key(s[a]) != #[trigger] sha_key(
        s[b],
    ) by {
        assert(sha_key(s[a]) == sha_key(old_s[a]));
        assert(sha_key(s[b]) == sha_key(old_s[b]));
    }
    let m1 = sha_map(s);
    let m0 = sha_map(old_s).insert(k, sha_val(s[i]));
    assert forall|q: Seq<char>| m1.dom().contains(q) <==> m0.dom().contains(q) by {
        if m1.dom().contains(q) {
            let j = choose|j: int| 0 <= j < s.len() && #[trigger] sha_key(s[j]) == q;
            if j != i {
                assert(sha_key(old_s[j]) == q);
                assert(sha_has(old_s, q));
            }
        }
        if m0.dom().contains(q) && q != k {
            let j = choose|j: int| 0 <= j < old_s.len() && #[trigger] sha_key(old_s[j]) == q;
            assert(j != i);
            assert(sha_key(s[j]) == q);
            assert(sha_has(s, q));
        }
        if q == k {
            assert(sha_has(s, q));
        }
    }
    assert forall|q: Seq<char>| m1.dom().contains(q) implies m1[q] == m0[q] by {
        let j = choose|j: int| 0 <= j < s.len() && #[trigger] sha_key(s[j]) == q;
        lemma_sha_value(s, j);
        if j != i {
            lemma_sha_value(old_s, j);
        }
    }
    assert(m1 =~= m0);
}

proof fn lemma_sha_after_push(old_s: Seq<ShaEntry>, e: ShaEntry)
    requires
        sha_unique(old_s),
        !sha_has(old_s, sha_key(e)),
    ensures
        sha_unique(old_s.push(e)),
        sha_map(old_s.push(e)) == sha_map(old_s).insert(sha_key(e), sha_val(e)),
{
    let s = old_s.push(e);
    let k = sha_key(e);
    let n = old_s.len() as int;
    assert forall|a: int, b: int|
        0 <= a < s.len() && 0 <= b < s.len() && a != b implies #[trigger] sha_key(s[a]) != #[trigger] sha_key(
        s[b],
    ) by {
        if a < n && b < n {
            assert(s[a] == old_s[a] && s[b] == old_s[b]);
        } else if a < n {
            assert(s[a] == old_s[a]);
            assert(sha_key(old_s[a]) != k);
        } else {
            assert(s[b] == old_s[b]);
            assert(sha_key(old_s[b]) != k);
        }
    }
    let m1 = sha_map(s);
    let m0 = sha_map(old_s).insert(k, sha_val(e));
    assert forall|q: Seq<char>| m1.dom().contains(q) <==> m0.dom().contains(q) by {
        if m1.dom().contains(q) {
            let j = choose|j: int| 0 <= j < s.len() && #[trigger] sha_key(s[j]) == q;
            if j != n {
                assert(sha_key(old_s[j]) == q);
                assert(sha_has(old_s, q));
            }
        }
        if m0.dom().contains(q) && q != k {
            let j = choose|j: int| 0 <= j < old_s.len() && #[trigger] sha_key(old_s[j]) == q;
            assert(sha_key(s[j]) == q);
            assert(sha_has(s, q));
        }
        if q == k {
            assert(sha_key(s[n]) == q);
            assert(sha_has(s, q));
        }
    }
    assert forall|q: Seq<char>| m1.dom().contains(q) implies m1[q] == m0[q] by {
        let j = choose|j: int| 0 <= j < s.len() && #[trigger] sha_key(s[j]) == q;
        lemma_sha_value(s, j);
        if j != n {
            assert(s[j] == old_s[j]);
            lemma_sha_value(old_s, j);
        }
    }
    assert(m1 =~= m0);
}

/// Hashes of executables by path, kept while the file's size and modification
/// time stay the same.
pub struct ShaCache {
    entries: Vec<ShaEntry>,
}

impl View for ShaCache {
    type V = Map<Seq<char>, ShaView>;

    closed spec fn view(&self) -> Map<Seq<char>, ShaView> {
        sha_map(self.entries@)
    }
}

/// Contents after remembering a hash: a full cache is emptied first.
pub open spec fn spec_sha_after_remember(m: Map<Seq<char>, ShaView>, path: Seq<char>, v: ShaView) -> Map<
    Seq<char>,
    ShaView,
> {
    (if m.len() >= SHA_CACHE_MAX {
        Map::empty()
    } else {
        m
    }).insert(path, v)
}

impl ShaCache {
    /// Well-formedness: one entry per path.
    pub closed spec fn wf(&self) -> bool {
        sha_unique(self.entries@)
    }

    pub fn new() -> (r: ShaCache)
        ensures
            r.wf(),
            r@ == Map::<Seq<char>, ShaView>::empty(),
    {
        let r = ShaCache { entries: Vec::new() };
        assert(r@ =~= Map::<Seq<char>, ShaView>::empty());
        r
    }

    fn find(&self, path: &str) -> (r: Option<usize>)
        ensures
            match r {
                Some(i) => i < self.entries@.len() && sha_key(self.entries@[i as int]) == path@,
                None => !sha_has(self.entries@, path@),
            },
    {
        let mut i: usize = 0;
        while i < self.entries.len()
            invariant
                i <= self.entries@.len(),
                forall|j: int| 0 <= j < i ==> sha_key(#[trigger] self.entries@[j]) != path@,
            decreases self.entries@.len() - i,
        {
            if str_eq(self.entries[i].path.as_str(), path) {
                return Some(i);
            }
            i += 1;
        }
        None
    }

    /// Number of remembered paths.
    pub fn len(&self) -> (r: usize)
        requires
            self.wf(),
        ensures
            r == self@.len(),
    {
        proof {
            self.lemma_len();
        }
        self.entries.len()
    }

    proof fn lemma_len(&self)
        requires
            self.wf(),
        ensures
            self@.len() == self.entries@.len(),
            self@.dom().finite(),
        decreases self.entries@.len(),
    {
        let s = self.entries@;
        let keys = s.map_values(|e: ShaEntry| sha_key(e));
        assert(keys.no_duplicates()) by {
            assert forall|a: int, b: int| 0 <= a < keys.len() && 0 <= b < keys.len() && a != b implies keys[a]
                != keys[b] by {
                assert(sha_key(s[a]) != sha_key(s[b]));
            }
        }
        assert(self@.dom() =~= keys.to_set()) by {
            assert forall|q: Seq<char>| self@.dom().contains(q) <==> keys.to_set().contains(q) by {
                if self@.dom().contains(q) {
                    let j = choose|j: int| 0 <= j < s.len() && #[trigger] sha_key(s[j]) == q;
                    assert(keys[j] == q);
                }
                if keys.to_set().contains(q) {
                    let j = choose|j: int| 0 <= j < keys.len() && keys[j] == q;
                    assert(sha_key(s[j]) == q);
                    assert(sha_has(s, q));
                }
            }
        }
        keys.unique_seq_to_set();
    }

    /// The remembered hash of `path`, if the size and modification time still
    /// match.
    pub fn lookup(&self, path: &str, size: u64, mtime: Option<i128>) -> (r: Option<String>)
        requires
            self.wf(),
        ensures
            match r {
                Some(h) => self@.dom().contains(path@) && self@[path@].0 == mtime && self@[path@].1 == size
                    && h@ == self@[path@].2,
                None => !(self@.dom().contains(path@) && self@[path@].0 == mtime && self@[path@].1 == size),
            },
    {
        match self.find(path) {
            Some(i) => {
                proof {
                    lemma_sha_value(self.entries@, i as int);
                }
                let e = &self.entries[i];
                let same_mtime = match (e.mtime, mtime) {
                    (Some(a), Some(b)) => a == b,
                    (None, None) => true,
                    _ => false,
                };
                if e.size == size && same_mtime {
                    Some(e.hash.clone())
                } else {
                    None
                }
            },
            None => None,
        }
    }

    /// Remembers the hash of `path`; a full cache is emptied first.
    pub fn remember(&mut self, path: &str, size: u64, mtime: Option<i128>, hash: String)
        requires
            old(self).wf(),
        ensures
            final(self).wf(),
            final(self)@ == spec_sha_after_remember(old(self)@, path@, (mtime, size, hash@)),
    {
        if self.len() >= SHA_CACHE_MAX {
            self.entries = Vec::new();
            assert(self@ =~= Map::<Seq<char>, ShaView>::empty());
        }
        let ghost old_s = self.entries@;
        let e = ShaEntry { path: String::from_str(path), mtime, size, hash };
        match self.find(path) {
            Some(i) => {
                self.entries.set(i, e);
                proof {
                    lemma_sha_after_set(old_s, self.entries@, i as int);
                }
            },
            None => {
                self.entries.push(e);
                proof {
                    lemma_sha_after_push(old_s, self.entries@.last());
                    assert(self.entries@ =~= old_s.push(self.entries@.last()));
                }
            },
        }
    }
}

/// The part of `s` after its last `c` (all of `s` where it holds none).
pub open spec fn after_last(s: Seq<char>, c: char) -> Seq<char>
    decreases s.len(),
{
    if s.len() == 0 {
        s
    } else if s.last() == c {
        Seq::empty()
    } else {
        after_last(s.drop_last(), c).push(s.last())
    }
}

/// `s` with the extension of its last component replaced by `ext`: the text
/// after the last `.` of the last component goes, unless that dot starts the
/// component; a component without a dot gains one.
pub open spec fn replaced_extension(s: Seq<char>, ext: Seq<char>) -> Seq<char> {
    let f = after_last(s, '/');
    let e = after_last(f, '.');
    if f.contains('.') && f.len() > e.len() + 1 {
        s.subrange(0, s.len() - e.len() - 1) + seq!['.'] + ext
    } else {
        s + seq!['.'] + ext
    }
}

/// Paths on which `Path::with_extension` acts the same on every platform and
/// `replaced_extension` states it: no backslash, no leading pair of
/// separators (a UNC or device prefix on Windows), and a last component that
/// is not empty, not `.` or `..`, and holds no `:`.
pub open spec fn plain_path(s: Seq<char>) -> bool {
    let f = after_last(s, '/');
    &&& !s.contains('\\')
    &&& !(s.len() >= 2 && s[0] == '/' && s[1] == '/')
    &&& f.len() > 0
    &&& f != seq!['.']
    &&& f != seq!['.', '.']
    &&& !f.contains(':')
}

/// The last component of `s` with both `/` and `\` taken as separators.
pub open spec fn last_component_any_sep(s: Seq<char>) -> Seq<char> {
    after_last(after_last(s, '/'), '\\')
}

/// Paths, Windows paths among them, on which `Path::with_extension` gives the
/// same text whether `\` separates components or not: no leading pair of
/// separators (a UNC, device or verbatim prefix on Windows), and a last
/// component (after the last `/` or `\`) that is not `..`, holds no `:`,
/// and holds a `.` other than its first character. There the text after the
/// last `.` is replaced.
pub open spec fn dotted_path(s: Seq<char>) -> bool {
    let f = last_component_any_sep(s);
    &&& !(s.len() >= 2 && (s[0] == '/' || s[0] == '\\') && (s[1] == '/' || s[1] == '\\'))
    &&& f != seq!['.', '.']
    &&& !f.contains(':')
    &&& f.contains('.')
    &&& f.len() > after_last(f, '.').len() + 1
}

/// `s` with the text after its last `.` replaced by `ext`.
pub open spec fn dotted_replaced(s: Seq<char>, ext: Seq<char>) -> Seq<char> {
    s.subrange(0, s.len() - after_last(s, '.').len()) + ext
}

/// What is stated of `r`, the path `s` with its extension set to `ext`: the
/// result on plain paths (`plain_path`) and on dotted paths (`dotted_path`).
pub open spec fn extension_set(s: Seq<char>, ext: Seq<char>, r: Seq<char>) -> bool {
    &&& plain_path(s) ==> r == replaced_extension(s, ext)
    &&& dotted_path(s) ==> r == dotted_replaced(s, ext)
}

/// `std::path::Path::with_extension`, as text. The contract states the result
/// where every platform gives the same text: on plain paths (`plain_path`)
/// and on dotted paths (`dotted_path`, Windows paths with `\` among them),
/// for a non-empty extension. Elsewhere it is left unsaid: there the result
/// depends on the platform's separators and prefixes. The extension holds no
/// separator (recent std panics on one).
#[verifier::external_body]
fn path_with_extension(path: &str, ext: &str) -> (r: String)
    requires
        !ext@.contains('/'),
        !ext@.contains('\\'),
    ensures
        ext@.len() > 0 ==> extension_set(path@, ext@, r@),
{
    std::path::Path::new(path).with_extension(ext).to_string_lossy().into_owned()
}

/// Publisher of an executable's signature: not read from PE metadata, so none.
pub fn publisher_for_exe(path: &str) -> (r: Option<String>)
    ensures
        r.is_none(),
{
    None
}

/// Icon path of an executable: the path with the extension `ico`.
pub fn icon_path_for_exe(path: &str) -> (r: Option<String>)
    ensures
        r matches Some(p) && extension_set(path@, "ico"@, p@),
{
    proof {
        reveal_strlit("ico");
        assert(!"ico"@.contains('/'));
        assert(!"ico"@.contains('\\'));
    }
    Some(path_with_extension(path, "ico"))
}

/// Placeholder path used where the executable of a process cannot be read:
/// `unknown-{pid}.exe`.
pub fn unknown_exe_path(pid: u32) -> (r: String)
    ensures
        r@ == "unknown-"@ + decimal(pid as nat) + ".exe"@,
{
    let mut s = String::from_str("unknown-");
    push_decimal(&mut s, pid as u64);
    s.append(".exe");
    s
}

/// Error for a process recently found unresolvable:
/// `pid {pid} unresolvable (cached)`.
pub fn unresolvable_error(pid: u32) -> (r: ServiceError)
    ensures
        r matches ServiceError::Other(m) && m@ == "pid "@ + decimal(pid as nat) + " unresolvable (cached)"@,
{
    let mut s = String::from_str("pid ");
    push_decimal(&mut s, pid as u64);
    s.append(" unresolvable (cached)");
    ServiceError::Other(s)
}

/// Outcome of matching a process to an already registered application.
pub struct Reconciled {
    /// The record to keep.
    pub record: AppRecord,
    /// Whether the record must be written back.
    pub upsert: bool,
    /// Whether an `AppUpdated` event is published.
    pub publish_updated: bool,
}

/// Whether a record last seen at `last_seen` is stale at `now` (milliseconds
/// since the epoch): at least 300 whole seconds have passed.
pub open spec fn last_seen_stale(last_seen: i64, now: i64) -> bool {
    now - last_seen >= LAST_SEEN_REFRESH_SECS * 1000
}

/// Reconciles an existing record with what was just read of its executable.
/// A record that had no hash and now gets one is updated: hash, publisher and
/// icon path. An updated or stale record is touched (`last_seen = now`) and
/// written back; only an updated one is announced.
pub fn reconcile_existing(record: AppRecord, sha256: Option<String>, exe_path: &str, now: i64) -> (r:
    Reconciled)
    ensures
        ({
            let updated = record.sha256.is_none() && sha256.is_some();
            let stale = last_seen_stale(record.last_seen, now);
            &&& r.publish_updated == updated
            &&& r.upsert == (updated || stale)
            &&& r.record.app_id == record.app_id
            &&& r.record.exe_path == record.exe_path
            &&& r.record.display_name == record.display_name
            &&& r.record.exit_config == record.exit_config
            &&& r.record.default_route == record.default_route
            &&& r.record.last_seen == (if updated || stale {
                now
            } else {
                record.last_seen
            })
            &&& if updated {
                &&& r.record.sha256 == sha256
                &&& r.record.publisher.is_none()
                &&& r.record.icon_path matches Some(p) && extension_set(exe_path@, "ico"@, p@)
            } else {
                &&& r.record.sha256 == record.sha256
                &&& r.record.publisher == record.publisher
                &&& r.record.icon_path == record.icon_path
            }
        }),
{
    let mut record = record;
    let updated = record.sha256.is_none() && sha256.is_some();
    if updated {
        record.sha256 = sha256;
        record.publisher = publisher_for_exe(exe_path);
        record.icon_path = icon_path_for_exe(exe_path);
    }
    let stale = now as i128 - record.last_seen as i128 >= 300_000;
    if updated || stale {
        record.last_seen = now;
    }
    Reconciled { record, upsert: updated || stale, publish_updated: updated }
}

/// Fills in what is read of a newly discovered executable: its hash, publisher
/// and icon path.
pub fn describe_new_record(record: AppRecord, sha256: Option<String>, exe_path: &str) -> (r: AppRecord)
    ensures
        r.sha256 == sha256,
        r.publisher.is_none(),
        r.icon_path matches Some(p) && extension_set(exe_path@, "ico"@, p@),
        r.app_id == record.app_id,
        r.exe_path == record.exe_path,
        r.display_name == record.display_name,
        r.last_seen == record.last_seen,
        r.exit_config == record.exit_config,
        r.default_route == record.default_route,
{
    let mut record = record;
    record.sha256 = sha256;
    record.publisher = publisher_for_exe(exe_path);
    record.icon_path = icon_path_for_exe(exe_path);
    record
}

/// The in-memory state of the registry: resolved and unresolvable process ids
/// and executable hashes.
pub struct AppRegistryService {
    pid_cache: TimedCache<AppIdentity>,
    pid_neg_cache: TimedCache<()>,
    sha_cache: ShaCache,
}

/// What the registry knows of a process before resolving it.
pub enum PidLookup<'a> {
    /// Resolved within the last minute.
    Cached(&'a AppIdentity),
    /// Found unresolvable within the last 30 seconds.
    Unresolvable,
    /// Must be resolved.
    Unknown,
}

impl AppRegistryService {
    pub closed spec fn wf(&self) -> bool {
        &&& self.pid_cache.wf()
        &&& self.pid_neg_cache.wf()
        &&& self.sha_cache.wf()
        &&& self.pid_cache.ttl() == PID_CACHE_TTL_MS
        &&& self.pid_cache.max_len() == PID_CACHE_MAX
        &&& self.pid_neg_cache.ttl() == PID_NEG_CACHE_TTL_MS
        &&& self.pid_neg_cache.max_len() == PID_CACHE_MAX
    }

    /// Resolved processes: identity and when it was cached.
    pub closed spec fn identities(&self) -> Map<u32, (AppIdentity, u64)> {
        self.pid_cache@
    }

    /// Unresolvable processes and when they were found so.
    pub closed spec fn unresolvable(&self) -> Map<u32, ((), u64)> {
        self.pid_neg_cache@
    }

    /// Remembered executable hashes.
    pub closed spec fn hashes(&self) -> Map<Seq<char>, ShaView> {
        self.sha_cache@
    }

    pub fn new() -> (r: AppRegistryService)
        ensures
            r.wf(),
            r.identities() == Map::<u32, (AppIdentity, u64)>::empty(),
            r.unresolvable() == Map::<u32, ((), u64)>::empty(),
            r.hashes() == Map::<Seq<char>, ShaView>::empty(),
    {
        AppRegistryService {
            pid_cache: TimedCache::new(PID_CACHE_TTL_MS, PID_CACHE_MAX),
            pid_neg_cache: TimedCache::new(PID_NEG_CACHE_TTL_MS, PID_CACHE_MAX),
            sha_cache: ShaCache::new(),
        }
    }

    /// What is known of `pid` at `now` (milliseconds of a monotonic clock): a
    /// resolution less than a minute old, else a failure less than 30 s old.
    pub fn lookup(&self, pid: u32, now: u64) -> (r: PidLookup)
        requires
            self.wf(),
        ensures
            match r {
                PidLookup::Cached(id) => self.identities().dom().contains(pid) && fresh_at(
                    self.identities()[pid].1,
                    now,
                    PID_CACHE_TTL_MS,
                ) && *id == self.identities()[pid].0,
                PidLookup::Unresolvable => !(self.identities().dom().contains(pid) && fresh_at(
                    self.identities()[pid].1,
                    now,
                    PID_CACHE_TTL_MS,
                )) && self.unresolvable().dom().contains(pid) && fresh_at(
                    self.unresolvable()[pid].1,
                    now,
                    PID_NEG_CACHE_TTL_MS,
                ),
                PidLookup::Unknown => !(self.identities().dom().contains(pid) && fresh_at(
                    self.identities()[pid].1,
                    now,
                    PID_CACHE_TTL_MS,
                )) && !(self.unresolvable().dom().contains(pid) && fresh_at(
                    self.unresolvable()[pid].1,
                    now,
                    PID_NEG_CACHE_TTL_MS,
                )),
            },
    {
        match self.pid_cache.get(pid, now) {
            Some(id) => PidLookup::Cached(id),
            None => if self.pid_neg_cache.contains_fresh(pid, now) {
                PidLookup::Unresolvable
            } else {
                PidLookup::Unknown
            },
        }
    }

    /// Remembers that `pid` could not be resolved at `now`.
    pub fn remember_unresolvable(&mut self, pid: u32, now: u64)
        requires
            old(self).wf(),
        ensures
            final(self).wf(),
            final(self).unresolvable() == spec_after_insert(
                old(self).unresolvable(),
                pid,
                (),
                now,
                PID_NEG_CACHE_TTL_MS,
                PID_CACHE_MAX,
            ),
            final(self).identities() == old(self).identities(),
            final(self).hashes() == old(self).hashes(),
    {
        self.pid_neg_cache.insert(pid, (), now);
    }

    /// Remembers the identity a process resolved to at `now`.
    pub fn remember_identity(&mut self, identity: AppIdentity, now: u64)
        requires
            old(self).wf(),
        ensures
            final(self).wf(),
            final(self).identities() == spec_after_insert(
                old(self).identities(),
                identity.pid,
                identity,
                now,
                PID_CACHE_TTL_MS,
                PID_CACHE_MAX,
            ),
            final(self).unresolvable() == old(self).unresolvable(),
            final(self).hashes() == old(self).hashes(),
    {
        let pid = identity.pid;
        self.pid_cache.insert(pid, identity, now);
    }

    /// Drops the cached resolutions of an application, so that a change of its
    /// routing takes effect at once.
    pub fn invalidate_app(&mut self, app_id: u128)
        requires
            old(self).wf(),
        ensures
            final(self).wf(),
            final(self).identities() == spec_without_app(old(self).identities(), app_id),
            final(self).unresolvable() == old(self).unresolvable(),
            final(self).hashes() == old(self).hashes(),
    {
        self.pid_cache.invalidate_app(app_id);
    }

    /// The remembered hash of an executable, if its size and modification time
    /// are unchanged.
    pub fn cached_sha256(&self, path: &str, size: u64, mtime: Option<i128>) -> (r: Option<String>)
        requires
            self.wf(),
        ensures
            match r {
                Some(h) => self.hashes().dom().contains(path@) && self.hashes()[path@].0 == mtime
                    && self.hashes()[path@].1 == size && h@ == self.hashes()[path@].2,
                None => !(self.hashes().dom().contains(path@) && self.hashes()[path@].0 == mtime
                    && self.hashes()[path@].1 == size),
            },
    {
        self.sha_cache.lookup(path, size, mtime)
    }

    /// Remembers the hash computed for an executable.
    pub fn remember_sha256(&mut self, path: &str, size: u64, mtime: Option<i128>, hash: String)
        requires
            old(self).wf(),
        ensures
            final(self).wf(),
            final(self).hashes() == spec_sha_after_remember(old(self).hashes(), path@, (mtime, size, hash@)),
            final(self).identities() == old(self).identities(),
            final(self).unresolvable() == old(self).unresolvable(),
    {
        self.sha_cache.remember(path, size, mtime, hash);
    }
}

/// A value just stored is what the cache holds for the process id, and it is
/// valid at the time it was stored (any positive lifetime).
pub proof fn law_stored_entry_is_served<V>(
    m: Map<u32, (V, u64)>,
    pid: u32,
    v: V,
    now: u64,
    ttl: u64,
    max_len: usize,
)
    requires
        ttl > 0,
    ensures
        spec_after_insert(m, pid, v, now, ttl, max_len).dom().contains(pid),
        spec_after_insert(m, pid, v, now, ttl, max_len)[pid] == (v, now),
        fresh_at(spec_after_insert(m, pid, v, now, ttl, max_len)[pid].1, now, ttl),
{
}

/// An entry is no longer served once its lifetime has passed.
pub proof fn law_entries_expire(at: u64, now: u64, ttl: u64)
    requires
        now >= at + ttl,
    ensures
        !fresh_at(at, now, ttl),
{
}

/// Storing never drops a valid entry of another process: what the cache held
/// and still serves at `now` is kept.
pub proof fn law_insert_keeps_fresh_entries<V>(
    m: Map<u32, (V, u64)>,
    pid: u32,
    v: V,
    now: u64,
    ttl: u64,
    max_len: usize,
    other: u32,
)
    requires
        other != pid,
        m.dom().contains(other),
        fresh_at(m[other].1, now, ttl),
    ensures
        spec_after_insert(m, pid, v, now, ttl, max_len).dom().contains(other),
        spec_after_insert(m, pid, v, now, ttl, max_len)[other] == m[other],
{
}

/// After an application is invalidated, no cached resolution belongs to it,
/// and the resolutions of other applications are kept.
pub proof fn law_invalidated_app_is_not_served(m: Map<u32, (AppIdentity, u64)>, app_id: u128, pid: u32)
    ensures
        spec_without_app(m, app_id).dom().contains(pid) ==> spec_without_app(m, app_id)[pid].0.record.app_id
            != app_id,
        m.dom().contains(pid) && m[pid].0.record.app_id != app_id ==> spec_without_app(m, app_id).dom().contains(
            pid,
        ) && spec_without_app(m, app_id)[pid] == m[pid],
{
}

/// A hash just remembered is found for its path with the same size and
/// modification time, and not once either changed.
pub proof fn law_remembered_hash_is_found(
    m: Map<Seq<char>, ShaView>,
    path: Seq<char>,
    mtime: Option<i128>,
    size: u64,
    hash: Seq<char>,
    other_size: u64,
)
    requires
        other_size != size,
    ensures
        spec_sha_after_remember(m, path, (mtime, size, hash)).dom().contains(path),
        spec_sha_after_remember(m, path, (mtime, size, hash))[path] == (mtime, size, hash),
        spec_sha_after_remember(m, path, (mtime, size, hash))[path].1 != other_size,
{
}

} // verus!
