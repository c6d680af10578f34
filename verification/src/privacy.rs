//! Privacy score from DNS, filters, routing and leak history, and the integer
//! aggregates of the privacy analytics.

use vstd::prelude::*;
use crate::leak::LeakType;
use crate::text::str_eq;
use crate::security_policy::texts;

verus! {

#[derive(Debug, Clone, Copy, PartialEq, Eq, Structural)]
pub enum DnsTransport {
    Plain,
    Doh,
    Dot,
    Doq,
}

/// Traffic of one route-statistics bucket.
pub struct RouteStatSample {
    pub route_type: String,
    pub bytes_in: u64,
    pub bytes_out: u64,
}

/// A recent leak incident.
pub struct LeakSample {
    pub leak_type: LeakType,
    pub resolved: bool,
}

pub struct PrivacyScoreComponents {
    pub encrypted_dns: u8,
    pub blocked_trackers: u8,
    pub vpn_coverage: u8,
    pub route_leakage: u8,
    pub dns_leakage: u8,
}

pub struct PrivacyScore {
    pub score: u8,
    pub components: PrivacyScoreComponents,
}

pub open spec fn sample_bytes(s: RouteStatSample) -> int {
    s.bytes_in + s.bytes_out
}

/// Bytes of all buckets.
pub open spec fn total_bytes(s: Seq<RouteStatSample>) -> int
    decreases s.len(),
{
    if s.len() == 0 {
        0
    } else {
        total_bytes(s.drop_last()) + sample_bytes(s.last())
    }
}

/// Bytes of the buckets whose route type is in `kinds`.
pub open spec fn bytes_of_kinds(s: Seq<RouteStatSample>, kinds: Set<Seq<char>>) -> int
    decreases s.len(),
{
    if s.len() == 0 {
        0
    } else {
        bytes_of_kinds(s.drop_last(), kinds) + if kinds.contains(s.last().route_type@) {
            sample_bytes(s.last())
        } else {
            0
        }
    }
}

pub open spec fn direct_kinds() -> Set<Seq<char>> {
    set!["direct"@]
}

/// Route types that count as anonymous traffic.
pub open spec fn anonymous_kinds() -> Set<Seq<char>> {
    set![
        "tor"@,
        "anonymous"@,
        "chain"@,
        "proxy"@,
        "proxy_chain"@,
        "katzenpost"@,
        "loopix"@,
        "federated_mixnet"@,
    ]
}

/// Unresolved DNS leak incidents.
pub open spec fn open_dns_leaks(l: Seq<LeakSample>) -> int
    decreases l.len(),
{
    if l.len() == 0 {
        0
    } else {
        open_dns_leaks(l.drop_last()) + if l.last().leak_type == LeakType::Dns && !l.last().resolved {
            1int
        } else {
            0
        }
    }
}

/// Enabled filter lists.
pub open spec fn count_enabled(f: Seq<bool>) -> int
    decreases f.len(),
{
    if f.len() == 0 {
        0
    } else {
        count_enabled(f.drop_last()) + if f.last() {
            1int
        } else {
            0
        }
    }
}

pub open spec fn spec_encrypted_dns(enabled: bool, transport: DnsTransport) -> int {
    if !enabled {
        0
    } else if transport == DnsTransport::Plain {
        30
    } else {
        100
    }
}

pub open spec fn spec_blocked_trackers(enabled_filters: int) -> int {
    let capped = if enabled_filters < 5 { enabled_filters } else { 5 };
    capped * 20
}

pub open spec fn spec_route_leakage(direct: int, total: int) -> int {
    if total == 0 {
        100
    } else {
        let pct = direct * 100 / total;
        100 - (if pct < 80 { pct } else { 80 })
    }
}

/// DNS leak component: 100 less 25 per open DNS leak, the product taken
/// modulo 256 (a byte) as the service computes it, and never below 0.
pub open spec fn spec_dns_leakage(open: int) -> int {
    let penalty = (open * 25) % 256;
    if penalty > 100 { 0 } else { 100 - penalty }
}

proof fn lemma_total_prefix(s: Seq<RouteStatSample>, i: int)
    requires
        0 <= i <= s.len(),
    ensures
        total_bytes(s.take(i)) <= total_bytes(s),
    decreases s.len() - i,
{
    if i < s.len() {
        lemma_total_prefix(s, i + 1);
        assert(s.take(i + 1).drop_last() =~= s.take(i));
    }
    if i == s.len() {
        assert(s.take(i) =~= s);
    }
}

proof fn lemma_kinds_le_total(s: Seq<RouteStatSample>, k: Set<Seq<char>>)
    ensures
        0 <= bytes_of_kinds(s, k) <= total_bytes(s),
    decreases s.len(),
{
    if s.len() > 0 {
        lemma_kinds_le_total(s.drop_last(), k);
    }
}

/// Sums the traffic of the buckets, and of those whose route type is in `kinds`.
fn sum_traffic(stats: &[RouteStatSample], kinds: &Vec<String>) -> (r: (u64, u64))
    requires
        total_bytes(stats@) <= u64::MAX,
    ensures
        r.0 == total_bytes(stats@),
        r.1 == bytes_of_kinds(stats@, texts(kinds@).to_set()),
{
    let ghost ks = texts(kinds@).to_set();
    let mut total: u64 = 0;
    let mut selected: u64 = 0;
    let mut i: usize = 0;
    while i < stats.len()
        invariant
            i <= stats@.len(),
            ks == texts(kinds@).to_set(),
            total_bytes(stats@) <= u64::MAX,
            total == total_bytes(stats@.take(i as int)),
            selected == bytes_of_kinds(stats@.take(i as int), ks),
        decreases stats@.len() - i,
    {
        proof {
            assert(stats@.take(i + 1).drop_last() =~= stats@.take(i as int));
            lemma_total_prefix(stats@, i + 1);
            lemma_kinds_le_total(stats@.take(i + 1), ks);
        }
        let b = stats[i].bytes_in + stats[i].bytes_out;
        total = total + b;
        let mut found = false;
        let mut j: usize = 0;
        while j < kinds.len()
            invariant
                i < stats@.len(),
                j <= kinds@.len(),
                found == exists|q: int| 0 <= q < j && kinds@[q]@ == stats@[i as int].route_type@,
            decreases kinds@.len() - j,
        {
            if str_eq(kinds[j].as_str(), stats[i].route_type.as_str()) {
                found = true;
            }
            j += 1;
        }
        proof {
            if found {
                let q = choose|q: int| 0 <= q < j && kinds@[q]@ == stats@[i as int].route_type@;
                assert(texts(kinds@)[q] == stats@[i as int].route_type@);
                assert(texts(kinds@).contains(stats@[i as int].route_type@));
            } else {
                assert forall|q: int| 0 <= q < texts(kinds@).len() implies texts(kinds@)[q]
                    != stats@[i as int].route_type@ by {
                    assert(texts(kinds@)[q] == kinds@[q]@);
                }
            }
        }
        if found {
            selected = selected + b;
        }
        i += 1;
    }
    assert(stats@.take(stats@.len() as int) =~= stats@);
    (total, selected)
}

fn direct_kind_list() -> (r: Vec<String>)
    ensures
        texts(r@).to_set() == direct_kinds(),
{
    let mut v: Vec<String> = Vec::new();
    v.push(String::from_str("direct"));
    assert(texts(v@) =~= seq!["direct"@]);
    assert(texts(v@).to_set() =~= direct_kinds()) by {
        assert(seq!["direct"@].contains("direct"@) ) by {
            assert(seq!["direct"@][0] == "direct"@);
        }
    }
    v
}

/// Route types counted as anonymous traffic.
pub fn anonymous_kind_list() -> (r: Vec<String>)
    ensures
        texts(r@).to_set() == anonymous_kinds(),
{
    let mut v: Vec<String> = Vec::new();
    v.push(String::from_str("tor"));
    v.push(String::from_str("anonymous"));
    v.push(String::from_str("chain"));
    v.push(String::from_str("proxy"));
    v.push(String::from_str("proxy_chain"));
    v.push(String::from_str("katzenpost"));
    v.push(String::from_str("loopix"));
    v.push(String::from_str("federated_mixnet"));
    let ghost t = texts(v@);
    assert(t =~= seq![
        "tor"@,
        "anonymous"@,
        "chain"@,
        "proxy"@,
        "proxy_chain"@,
        "katzenpost"@,
        "loopix"@,
        "federated_mixnet"@,
    ]);
    assert forall|x: Seq<char>| t.to_set().contains(x) <==> anonymous_kinds().contains(x) by {
        if anonymous_kinds().contains(x) {
            if x == "tor"@ { assert(t[0] == x); }
            else if x == "anonymous"@ { assert(t[1] == x); }
            else if x == "chain"@ { assert(t[2] == x); }
            else if x == "proxy"@ { assert(t[3] == x); }
            else if x == "proxy_chain"@ { assert(t[4] == x); }
            else if x == "katzenpost"@ { assert(t[5] == x); }
            else if x == "loopix"@ { assert(t[6] == x); }
            else { assert(t[7] == x); }
        }
    }
    assert(t.to_set() =~= anonymous_kinds());
    v
}

/// Traffic of all buckets and of the anonymous ones.
pub fn anonymous_traffic(stats: &[RouteStatSample]) -> (r: (u64, u64))
    requires
        total_bytes(stats@) <= u64::MAX,
    ensures
        r.0 == total_bytes(stats@),
        r.1 == bytes_of_kinds(stats@, anonymous_kinds()),
{
    let kinds = anonymous_kind_list();
    sum_traffic(stats, &kinds)
}

fn enabled_filters(filters_enabled: &[bool]) -> (r: usize)
    ensures
        r == count_enabled(filters_enabled@),
        r <= filters_enabled@.len(),
{
    let mut enabled_count: usize = 0;
    let mut i: usize = 0;
    while i < filters_enabled.len()
        invariant
            i <= filters_enabled@.len(),
            enabled_count == count_enabled(filters_enabled@.take(i as int)),
            enabled_count <= i,
        decreases filters_enabled@.len() - i,
    {
        proof {
            assert(filters_enabled@.take(i + 1).drop_last() =~= filters_enabled@.take(i as int));
        }
        if filters_enabled[i] {
            enabled_count += 1;
        }
        i += 1;
    }
    assert(filters_enabled@.take(filters_enabled@.len() as int) =~= filters_enabled@);
    enabled_count
}

fn open_dns_count(leaks: &[LeakSample]) -> (r: usize)
    ensures
        r == open_dns_leaks(leaks@),
        r <= leaks@.len(),
{
    let mut open_dns: usize = 0;
    let mut k: usize = 0;
    while k < leaks.len()
        invariant
            k <= leaks@.len(),
            open_dns == open_dns_leaks(leaks@.take(k as int)),
            open_dns <= k,
        decreases leaks@.len() - k,
    {
        proof {
            assert(leaks@.take(k + 1).drop_last() =~= leaks@.take(k as int));
        }
        let is_dns = match leaks[k].leak_type {
            LeakType::Dns => true,
            _ => false,
        };
        if is_dns && !leaks[k].resolved {
            open_dns += 1;
        }
        k += 1;
    }
    assert(leaks@.take(leaks@.len() as int) =~= leaks@);
    open_dns
}

fn route_leakage_component(route_stats: &[RouteStatSample]) -> (r: u8)
    requires
        total_bytes(route_stats@) <= u64::MAX,
        bytes_of_kinds(route_stats@, direct_kinds()) * 100 <= u64::MAX,
    ensures
        r == spec_route_leakage(bytes_of_kinds(route_stats@, direct_kinds()), total_bytes(route_stats@)),
{
    let kinds = direct_kind_list();
    let (total, direct) = sum_traffic(route_stats, &kinds);
    if total == 0 {
        100
    } else {
        proof {
            lemma_kinds_le_total(route_stats@, direct_kinds());
            let d = direct as int;
            let t = total as int;
            assert((d * 100) / t <= 100) by (nonlinear_arith)
                requires
                    d <= t,
                    t > 0,
                    d >= 0,
            ;
        }
        let pct = (direct * 100 / total) as u8;
        let capped_pct: u8 = if pct < 80 { pct } else { 80 };
        100 - capped_pct
    }
}

/// Privacy score: the mean of five components, each from 0 to 100.
pub fn calculate_privacy_score(
    dns_enabled: bool,
    dns_transport: DnsTransport,
    filters_enabled: &[bool],
    vpn_any_connected: bool,
    route_stats: &[RouteStatSample],
    leaks: &[LeakSample],
) -> (r: PrivacyScore)
    requires
        total_bytes(route_stats@) <= u64::MAX,
        bytes_of_kinds(route_stats@, direct_kinds()) * 100 <= u64::MAX,
        leaks@.len() * 25 <= usize::MAX,
    ensures
        r.components.encrypted_dns == spec_encrypted_dns(dns_enabled, dns_transport),
        r.components.blocked_trackers == spec_blocked_trackers(count_enabled(filters_enabled@)),
        r.components.vpn_coverage == (if vpn_any_connected { 100int } else { 0 }),
        r.components.route_leakage == spec_route_leakage(
            bytes_of_kinds(route_stats@, direct_kinds()),
            total_bytes(route_stats@),
        ),
        r.components.dns_leakage == spec_dns_leakage(open_dns_leaks(leaks@)),
        r.score == (r.components.encrypted_dns + r.components.blocked_trackers + r.components.vpn_coverage
            + r.components.route_leakage + r.components.dns_leakage) / 5,
{
    let encrypted_dns: u8 = if !dns_enabled {
        0
    } else {
        match dns_transport {
            DnsTransport::Plain => 30,
            _ => 100,
        }
    };
    let enabled_count = enabled_filters(filters_enabled);
    let capped: u8 = if enabled_count < 5 { enabled_count as u8 } else { 5 };
    let blocked_trackers: u8 = capped * 20;
    let vpn_coverage: u8 = if vpn_any_connected { 100 } else { 0 };
    let route_leakage = route_leakage_component(route_stats);
    let open_dns = open_dns_count(leaks);
    let product: usize = open_dns * 25;
    let penalty: u8 = (product % 256) as u8;
    let dns_leakage: u8 = if penalty > 100 { 0 } else { 100 - penalty };

    let sum: u16 = encrypted_dns as u16 + blocked_trackers as u16 + vpn_coverage as u16 + route_leakage as u16
        + dns_leakage as u16;
    let score = (sum / 5) as u8;
    PrivacyScore {
        score,
        components: PrivacyScoreComponents { encrypted_dns, blocked_trackers, vpn_coverage, route_leakage, dns_leakage },
    }
}

/// Number of distinct route types.
pub fn distinct_count(types: &[String]) -> (r: usize)
    ensures
        r == texts(types@).to_set().len(),
{
    let mut seen: Vec<String> = Vec::new();
    let mut i: usize = 0;
    while i < types.len()
        invariant
            i <= types@.len(),
            texts(seen@).no_duplicates(),
            texts(seen@).to_set() == texts(types@.take(i as int)).to_set(),
            seen@.len() <= i,
        decreases types@.len() - i,
    {
        let ghost before = texts(seen@);
        let found = contains_str(&seen, types[i].as_str());
        proof {
            assert(texts(types@.take(i + 1)) =~= texts(types@.take(i as int)).push(types@[i as int]@));
        }
        if !found {
            seen.push(types[i].clone());
            proof {
                assert(texts(seen@) =~= before.push(types@[i as int]@));
                lemma_push_to_set(before, types@[i as int]@);
                assert forall|a: int, b: int|
                    0 <= a < texts(seen@).len() && 0 <= b < texts(seen@).len() && a != b implies texts(seen@)[a]
                    != texts(seen@)[b] by {
                    if a < before.len() && b < before.len() {
                    } else if a < before.len() {
                        assert(before.contains(before[a]));
                    } else {
                        assert(before.contains(before[b]));
                    }
                }
            }
        } else {
            proof {
                assert(before.to_set().contains(types@[i as int]@));
                assert(before.to_set().insert(types@[i as int]@) =~= before.to_set());
            }
        }
        proof {
            lemma_push_to_set(texts(types@.take(i as int)), types@[i as int]@);
        }
        i += 1;
    }
    assert(types@.take(types@.len() as int) =~= types@);
    proof {
        texts(seen@).unique_seq_to_set();
    }
    seen.len()
}

proof fn lemma_push_to_set(s: Seq<Seq<char>>, x: Seq<char>)
    ensures
        s.push(x).to_set() == s.to_set().insert(x),
{
    assert forall|a: Seq<char>| s.push(x).to_set().contains(a) <==> s.to_set().insert(x).contains(a) by {
        if s.push(x).contains(a) {
            let j = choose|j: int| 0 <= j < s.push(x).len() && s.push(x)[j] == a;
            if j < s.len() {
                assert(s[j] == a);
                assert(s.contains(a));
            }
        }
        if s.contains(a) {
            let j = choose|j: int| 0 <= j < s.len() && s[j] == a;
            assert(s.push(x)[j] == a);
            assert(s.push(x).contains(a));
        }
        if a == x {
            assert(s.push(x)[s.len() as int] == a);
            assert(s.push(x).contains(a));
        }
    }
    assert(s.push(x).to_set() =~= s.to_set().insert(x));
}

fn contains_str(v: &Vec<String>, x: &str) -> (r: bool)
    ensures
        r == texts(v@).contains(x@),
{
    let mut i: usize = 0;
    while i < v.len()
        invariant
            i <= v@.len(),
            forall|j: int| 0 <= j < i ==> v@[j]@ != x@,
        decreases v@.len() - i,
    {
        if str_eq(v[i].as_str(), x) {
            assert(texts(v@)[i as int] == x@);
            return true;
        }
        i += 1;
    }
    assert forall|j: int| 0 <= j < texts(v@).len() implies texts(v@)[j] != x@ by {
        assert(texts(v@)[j] == v@[j]@);
    }
    false
}

/// Every component of the privacy score lies between 0 and 100, so the score
/// does too; routed traffic never counts less than a fifth.
pub proof fn law_privacy_components_bounded(
    dns_enabled: bool,
    transport: DnsTransport,
    enabled_filters: int,
    direct: int,
    total: int,
    open_leaks: int,
)
    requires
        0 <= enabled_filters,
        0 <= direct <= total,
        0 <= open_leaks,
    ensures
        0 <= spec_encrypted_dns(dns_enabled, transport) <= 100,
        0 <= spec_blocked_trackers(enabled_filters) <= 100,
        20 <= spec_route_leakage(direct, total) <= 100,
        0 <= spec_dns_leakage(open_leaks) <= 100,
        0 <= (spec_encrypted_dns(dns_enabled, transport) + spec_blocked_trackers(enabled_filters) + 100
            + spec_route_leakage(direct, total) + spec_dns_leakage(open_leaks)) / 5 <= 100,
{
    if total != 0 {
        assert(0 <= direct * 100 / total <= 100) by (nonlinear_arith)
            requires
                0 <= direct <= total,
                total > 0,
        ;
    }
}

/// Encrypted DNS scores the full 100 whatever the transport (DoH, DoT or DoQ),
/// plain DNS only 30 and disabled DNS protection 0; so, all else equal, the
/// privacy score with an encrypted transport is 14 above that with plain DNS.
pub proof fn law_encrypted_dns_outscores_plain(
    transport: DnsTransport,
    enabled_filters: int,
    vpn: int,
    direct: int,
    total: int,
    open_leaks: int,
)
    ensures
        spec_encrypted_dns(false, transport) == 0,
        spec_encrypted_dns(true, DnsTransport::Plain) == 30,
        transport != DnsTransport::Plain ==> spec_encrypted_dns(true, transport) == 100,
        spec_encrypted_dns(true, DnsTransport::Plain) < spec_encrypted_dns(true, DnsTransport::Doh),
        spec_encrypted_dns(true, DnsTransport::Doh) == spec_encrypted_dns(true, DnsTransport::Dot)
            == spec_encrypted_dns(true, DnsTransport::Doq),
        ({
            let rest = spec_blocked_trackers(enabled_filters) + vpn + spec_route_leakage(direct, total)
                + spec_dns_leakage(open_leaks);
            (spec_encrypted_dns(true, DnsTransport::Doh) + rest) / 5 == (spec_encrypted_dns(true, DnsTransport::Plain)
                + rest) / 5 + 14
        }),
{
}

} // verus!
