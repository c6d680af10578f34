//! The in-memory log ring and the rotation of log files.

use vstd::prelude::*;
use vstd::relations::{sorted_by, total_ordering};
use crate::text::to_owned_string;

verus! {

/// A log line kept in memory.
pub struct LogEntry {
    /// Milliseconds since the epoch.
    pub timestamp: i64,
    pub level: String,
    pub target: String,
    pub message: String,
}

pub type LogView = (i64, Seq<char>, Seq<char>, Seq<char>);

impl View for LogEntry {
    type V = LogView;

    open spec fn view(&self) -> LogView {
        (self.timestamp, self.level@, self.target@, self.message@)
    }
}

impl LogEntry {
    pub fn duplicate(&self) -> (r: LogEntry)
        ensures
            r@ == self@,
    {
        LogEntry {
            timestamp: self.timestamp,
            level: self.level.clone(),
            target: self.target.clone(),
            message: self.message.clone(),
        }
    }
}

/// Whether two characters are equal once ASCII letters are lower-cased.
pub open spec fn char_eq_ignore_ascii_case(a: char, b: char) -> bool {
    ||| a == b
    ||| ('A' <= a <= 'Z' && a as int + 32 == b as int)
    ||| ('A' <= b <= 'Z' && b as int + 32 == a as int)
}

/// `str::eq_ignore_ascii_case`: same length, and equal characters once ASCII
/// letters are lower-cased.
pub open spec fn eq_ignore_ascii_case(a: Seq<char>, b: Seq<char>) -> bool {
    &&& a.len() == b.len()
    &&& forall|i: int| 0 <= i < a.len() ==> char_eq_ignore_ascii_case(#[trigger] a[i], b[i])
}

fn char_eq_ic(a: char, b: char) -> (r: bool)
    ensures
        r == char_eq_ignore_ascii_case(a, b),
{
    let x = a as u32;
    let y = b as u32;
    x == y || (65 <= x && x <= 90 && x + 32 == y) || (65 <= y && y <= 90 && y + 32 == x)
}

pub fn str_eq_ignore_ascii_case(a: &str, b: &str) -> (r: bool)
    ensures
        r == eq_ignore_ascii_case(a@, b@),
{
    let n = a.unicode_len();
    if n != b.unicode_len() {
        return false;
    }
    let mut i: usize = 0;
    while i < n
        invariant
            n == a@.len(),
            n == b@.len(),
            i <= n,
            forall|j: int| 0 <= j < i ==> char_eq_ignore_ascii_case(#[trigger] a@[j], b@[j]),
        decreases n - i,
    {
        if !char_eq_ic(a.get_char(i), b.get_char(i)) {
            return false;
        }
        i += 1;
    }
    true
}

/// Whether an entry passes the level filter (no filter lets everything pass).
pub open spec fn level_matches(e: LogView, level: Option<Seq<char>>) -> bool {
    match level {
        Some(l) => eq_ignore_ascii_case(e.1, l),
        None => true,
    }
}

/// The last `limit` entries that pass the level filter, oldest first.
pub open spec fn spec_recent(entries: Seq<LogView>, limit: nat, level: Option<Seq<char>>) -> Seq<LogView>
    decreases entries.len(),
{
    if entries.len() == 0 || limit == 0 {
        Seq::empty()
    } else if level_matches(entries.last(), level) {
        spec_recent(entries.drop_last(), (limit - 1) as nat, level).push(entries.last())
    } else {
        spec_recent(entries.drop_last(), limit, level)
    }
}

/// Views of a list of entries.
pub open spec fn log_views(s: Seq<LogEntry>) -> Seq<LogView> {
    s.map_values(|e: LogEntry| e@)
}

/// `s` in reverse order.
pub open spec fn reversed<A>(s: Seq<A>) -> Seq<A> {
    Seq::new(s.len(), |j: int| s[s.len() - 1 - j])
}

/// The most recent `limit` entries of the ring that pass the level filter
/// (compared ignoring ASCII case), in the ring's order.
pub fn recent_entries(ring: &Vec<LogEntry>, limit: usize, level_filter: Option<&str>) -> (r: Vec<LogEntry>)
    ensures
        log_views(r@) == spec_recent(
            log_views(ring@),
            limit as nat,
            match level_filter {
                Some(l) => Some(l@),
                None => None,
            },
        ),
{
    let ghost level = match level_filter {
        Some(l) => Some(l@),
        None => None,
    };
    let ghost all = log_views(ring@);
    let mut picked: Vec<LogEntry> = Vec::new();
    let mut i: usize = ring.len();
    let mut taken: usize = 0;
    proof {
        assert(all.subrange(0, i as int) =~= all);
        assert(reversed(log_views(picked@)) =~= Seq::<LogView>::empty());
    }
    while i > 0 && taken < limit
        invariant
            i <= ring@.len(),
            all == log_views(ring@),
            taken <= limit,
            taken == picked@.len(),
            level == match level_filter {
                Some(l) => Some(l@),
                None => None,
            },
            spec_recent(all, limit as nat, level) == spec_recent(
                all.subrange(0, i as int),
                (limit - taken) as nat,
                level,
            ) + reversed(log_views(picked@)),
        decreases i,
    {
        let e = &ring[i - 1];
        let ghost pre = all.subrange(0, i as int);
        proof {
            assert(pre.drop_last() =~= all.subrange(0, i - 1));
            assert(pre.last() == e@);
            assert(pre.len() > 0);
        }
        let pass = match level_filter {
            Some(l) => str_eq_ignore_ascii_case(e.level.as_str(), l),
            None => true,
        };
        assert(pass == level_matches(e@, level));
        if pass {
            let ghost before = log_views(picked@);
            picked.push(e.duplicate());
            proof {
                assert(log_views(picked@) =~= before.push(e@));
                assert(reversed(before.push(e@)) =~= seq![e@] + reversed(before));
                assert(spec_recent(pre, (limit - taken) as nat, level) == spec_recent(
                    all.subrange(0, i - 1),
                    (limit - taken - 1) as nat,
                    level,
                ).push(e@));
                assert(spec_recent(all.subrange(0, i - 1), (limit - taken - 1) as nat, level).push(e@)
                    + reversed(before) =~= spec_recent(all.subrange(0, i - 1), (limit - taken - 1) as nat, level)
                    + reversed(log_views(picked@)));
            }
            taken += 1;
        }
        i -= 1;
    }
    proof {
        let rest = spec_recent(all.subrange(0, i as int), (limit - taken) as nat, level);
        assert(rest =~= Seq::<LogView>::empty());
    }
    let mut out: Vec<LogEntry> = Vec::new();
    let mut j: usize = picked.len();
    while j > 0
        invariant
            j <= picked@.len(),
            log_views(out@) =~= reversed(log_views(picked@)).subrange(0, picked@.len() - j),
        decreases j,
    {
        let ghost before = log_views(out@);
        out.push(picked[j - 1].duplicate());
        proof {
            assert(log_views(out@) =~= before.push(picked@[j - 1]@));
            assert(reversed(log_views(picked@)).subrange(0, picked@.len() - j + 1) =~= reversed(
                log_views(picked@),
            ).subrange(0, picked@.len() - j).push(picked@[j - 1]@));
        }
        j -= 1;
    }
    proof {
        assert(reversed(log_views(picked@)).subrange(0, picked@.len() as int) =~= reversed(
            log_views(picked@),
        ));
    }
    out
}

/// Order in which log files age: by modification time, then by the order in
/// which the directory listed them.
pub open spec fn file_age_leq(a: (i128, int), b: (i128, int)) -> bool {
    a.0 < b.0 || (a.0 == b.0 && a.1 <= b.1)
}

/// Age keys of the listed files.
pub open spec fn age_keys(files: Seq<(i128, String)>) -> Seq<(i128, int)> {
    Seq::new(files.len(), |i: int| (files[i].0, i))
}

/// The files removed when at most `max_files` may stay: none where
/// `max_files` is 0 or not exceeded, else the `len - max_files` oldest, oldest
/// first (`sort_by_key` on the modification time keeps ties in listing order).
pub open spec fn spec_files_to_prune(files: Seq<(i128, String)>, max_files: u32) -> Seq<Seq<char>> {
    if max_files == 0 || files.len() <= max_files {
        Seq::empty()
    } else {
        let order = age_keys(files).sort_by(|a: (i128, int), b: (i128, int)| file_age_leq(a, b));
        Seq::new((files.len() - max_files) as nat, |i: int| files[order[i].1].1@)
    }
}

proof fn lemma_age_order_total()
    ensures
        total_ordering(|a: (i128, int), b: (i128, int)| file_age_leq(a, b)),
{
}

/// Paths of the log files to delete so that at most `max_files` remain;
/// `files` holds each file's modification time (nanoseconds from the epoch)
/// and path, in listing order.
pub fn files_to_prune(files: &Vec<(i128, String)>, max_files: u32) -> (r: Vec<String>)
    ensures
        r@.map_values(|s: String| s@) == spec_files_to_prune(files@, max_files),
{
    let n = files.len();
    if max_files == 0 || n <= max_files as usize {
        let r: Vec<String> = Vec::new();
        assert(r@.map_values(|s: String| s@) =~= spec_files_to_prune(files@, max_files));
        return r;
    }
    let ghost leq = |a: (i128, int), b: (i128, int)| file_age_leq(a, b);
    let ghost keys = age_keys(files@);
    let mut sorted: Vec<(i128, usize)> = Vec::new();
    let mut i: usize = 0;
    proof {
        broadcast use vstd::seq_lib::group_to_multiset_ensures;

        assert(keys.subrange(0, 0) =~= Seq::<(i128, int)>::empty());
        assert(sorted@.map_values(|k: (i128, usize)| (k.0, k.1 as int)) =~= Seq::<(i128, int)>::empty());
    }
    while i < n
        invariant
            n == files@.len(),
            i <= n,
            keys == age_keys(files@),
            leq == (|a: (i128, int), b: (i128, int)| file_age_leq(a, b)),
            sorted@.len() == i,
            sorted_by(sorted@.map_values(|k: (i128, usize)| (k.0, k.1 as int)), leq),
            sorted@.map_values(|k: (i128, usize)| (k.0, k.1 as int)).to_multiset() == keys.subrange(
                0,
                i as int,
            ).to_multiset(),
            forall|j: int| 0 <= j < sorted@.len() ==> (#[trigger] sorted@[j]).1 < i,
        decreases n - i,
    {
        let m = files[i].0;
        let mut pos: usize = 0;
        while pos < sorted.len() && sorted[pos].0 <= m
            invariant
                pos <= sorted@.len(),
                forall|j: int| 0 <= j < pos ==> (#[trigger] sorted@[j]).0 <= m,
            decreases sorted@.len() - pos,
        {
            pos += 1;
        }
        let ghost before = sorted@;
        sorted.insert(pos, (m, i));
        proof {
            let vb = before.map_values(|k: (i128, usize)| (k.0, k.1 as int));
            let va = sorted@.map_values(|k: (i128, usize)| (k.0, k.1 as int));
            assert(va =~= vb.insert(pos as int, (m, i as int)));
            assert(keys.subrange(0, i + 1) =~= keys.subrange(0, i as int).push((m, i as int)));
            vstd::seq_lib::to_multiset_insert(vb, pos as int, (m, i as int));
            vstd::seq_lib::to_multiset_build(keys.subrange(0, i as int), (m, i as int));
            assert(pos < vb.len() ==> vb[pos as int].0 > m);
            assert forall|a: int, b: int| 0 <= a < b < va.len() implies #[trigger] leq(va[a], va[b]) by {
                if a < pos && b < pos {
                    assert(va[a] == vb[a] && va[b] == vb[b]);
                    assert(leq(vb[a], vb[b]));
                } else if a < pos && b == pos {
                    assert(va[a] == vb[a]);
                    assert(vb[a].0 <= m && vb[a].1 < i);
                    assert(file_age_leq(va[a], va[b]));
                } else if a < pos {
                    assert(va[a] == vb[a] && va[b] == vb[b - 1]);
                    assert(leq(vb[a], vb[b - 1]));
                } else if a == pos {
                    assert(va[b] == vb[b - 1]);
                    if b - 1 > pos {
                        assert(leq(vb[pos as int], vb[b - 1]));
                    }
                    assert(vb[b - 1].0 > m);
                    assert(file_age_leq(va[a], va[b]));
                } else {
                    assert(va[a] == vb[a - 1] && va[b] == vb[b - 1]);
                    assert(leq(vb[a - 1], vb[b - 1]));
                }
            }
        }
        i += 1;
    }
    let ghost sv = sorted@.map_values(|k: (i128, usize)| (k.0, k.1 as int));
    proof {
        assert(keys.subrange(0, n as int) =~= keys);
        lemma_age_order_total();
        keys.lemma_sort_by_ensures(leq);
        vstd::seq_lib::lemma_sorted_unique(sv, keys.sort_by(leq), leq);
    }
    let remove_count = n - max_files as usize;
    let mut r: Vec<String> = Vec::new();
    let mut j: usize = 0;
    while j < remove_count
        invariant
            remove_count <= sorted@.len() == n == files@.len(),
            j <= remove_count,
            sv == sorted@.map_values(|k: (i128, usize)| (k.0, k.1 as int)),
            forall|q: int| 0 <= q < sorted@.len() ==> (#[trigger] sorted@[q]).1 < n,
            r@.len() == j,
            forall|q: int| 0 <= q < j ==> (#[trigger] r@[q])@ == files@[sv[q].1].1@,
        decreases remove_count - j,
    {
        let k = sorted[j].1;
        r.push(to_owned_string(files[k].1.as_str()));
        j += 1;
    }
    assert(r@.map_values(|s: String| s@) =~= spec_files_to_prune(files@, max_files));
    r
}

/// The recent-log view never holds more than `limit` entries, and each passes
/// the level filter.
pub proof fn law_recent_is_bounded_and_filtered(entries: Seq<LogView>, limit: nat, level: Option<Seq<char>>)
    ensures
        spec_recent(entries, limit, level).len() <= limit,
        forall|i: int|
            0 <= i < spec_recent(entries, limit, level).len() ==> level_matches(
                #[trigger] spec_recent(entries, limit, level)[i],
                level,
            ),
    decreases entries.len(),
{
    if entries.len() == 0 || limit == 0 {
    } else if level_matches(entries.last(), level) {
        law_recent_is_bounded_and_filtered(entries.drop_last(), (limit - 1) as nat, level);
        let prev = spec_recent(entries.drop_last(), (limit - 1) as nat, level);
        assert forall|i: int| 0 <= i < prev.push(entries.last()).len() implies level_matches(
            #[trigger] prev.push(entries.last())[i],
            level,
        ) by {
            if i < prev.len() {
                assert(prev.push(entries.last())[i] == prev[i]);
            }
        }
    } else {
        law_recent_is_bounded_and_filtered(entries.drop_last(), limit, level);
    }
}

/// Pruning leaves exactly `max_files` files when there were more (and a limit
/// of 0 prunes nothing).
pub proof fn law_prune_keeps_max_files(files: Seq<(i128, String)>, max_files: u32)
    ensures
        max_files == 0 ==> spec_files_to_prune(files, max_files).len() == 0,
        max_files > 0 && files.len() > max_files ==> files.len() - spec_files_to_prune(files, max_files).len()
            == max_files,
        files.len() <= max_files ==> spec_files_to_prune(files, max_files).len() == 0,
{
}

} // verus!
