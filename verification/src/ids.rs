//! Textual form of identifiers and the deterministic v5 keys of upsert buckets.

use vstd::prelude::*;
use vstd::arithmetic::power::pow;
use vstd::utf8::encode_utf8;

verus! {

/// Lower-case hexadecimal digit of a nibble.
pub open spec fn hex_digit(n: int) -> char {
    seq!['0', '1', '2', '3', '4', '5', '6', '7', '8', '9', 'a', 'b', 'c', 'd', 'e', 'f'][n]
}

/// Nibble `i` (0 = most significant) of a 128-bit identifier.
pub open spec fn id_nibble(v: u128, i: int) -> int {
    (v as int / pow(16, (31 - i) as nat)) % 16
}

/// The 32 hexadecimal digits of an identifier, most significant first.
pub open spec fn id_hex32(v: u128) -> Seq<char> {
    Seq::new(32, |i: int| hex_digit(id_nibble(v, i)))
}

/// Hyphenated lower-case form `xxxxxxxx-xxxx-xxxx-xxxx-xxxxxxxxxxxx`.
pub open spec fn uuid_text(v: u128) -> Seq<char> {
    let h = id_hex32(v);
    h.subrange(0, 8) + seq!['-'] + h.subrange(8, 12) + seq!['-'] + h.subrange(12, 16) + seq!['-']
        + h.subrange(16, 20) + seq!['-'] + h.subrange(20, 32)
}

/// Name for the identifier that `uuid::Uuid::new_v5` derives from a namespace
/// and a name (a SHA-1 based construction).
pub uninterp spec fn uuid_v5(namespace: u128, name: Seq<u8>) -> u128;

/// Name for the RFC 3339 text that chrono's `DateTime::<Utc>::to_rfc3339` gives
/// for the instant `millis` milliseconds after the Unix epoch; `None` where
/// `DateTime::from_timestamp_millis` cannot represent the instant.
pub uninterp spec fn utc_rfc3339(millis: i64) -> Option<Seq<char>>;

/// `uuid::Uuid` rendered by its `Display` impl: the hyphenated lower-case form of
/// the big-endian 128-bit value. The contract states that form exactly.
#[verifier::external_body]
pub fn uuid_to_string(id: u128) -> (r: String)
    ensures
        r@ == uuid_text(id),
{
    uuid::Uuid::from_u128(id).to_string()
}

/// `uuid::Uuid::new_v5(namespace, name)`; the contract only names the result
/// (`uuid_v5`), which depends on the namespace and the name alone.
#[verifier::external_body]
fn new_v5(namespace: u128, name: &[u8]) -> (r: u128)
    ensures
        r == uuid_v5(namespace, name@),
{
    uuid::Uuid::new_v5(&uuid::Uuid::from_u128(namespace), name).as_u128()
}

/// chrono: the instant `millis` after the epoch, as `DateTime<Utc>`, formatted by
/// `to_rfc3339`; the contract names the text (`utc_rfc3339`).
#[verifier::external_body]
pub(crate) fn rfc3339_at_millis(millis: i64) -> (r: Option<String>)
    ensures
        r.is_some() == utc_rfc3339(millis).is_some(),
        r matches Some(s) ==> utc_rfc3339(millis) == Some(s@),
{
    chrono::DateTime::from_timestamp_millis(millis).map(|d| d.to_rfc3339())
}

/// Name for what `uuid::Uuid::parse_str` gives for a text: the identifier
/// (simple, hyphenated, braced or URN form), or `None` where the text is in none
/// of these forms.
pub uninterp spec fn uuid_parse(s: Seq<char>) -> Option<u128>;

/// `uuid::Uuid::parse_str(s).ok()`. Beside the name, the contract states the one
/// fact that the parser's source shows plainly: the hyphenated lower-case text
/// of an identifier parses back to that identifier.
#[verifier::external_body]
pub(crate) fn parse_uuid(s: &str) -> (r: Option<u128>)
    ensures
        r == uuid_parse(s@),
        (exists|x: u128| s@ == uuid_text(x)) ==> r == Some(choose|x: u128| s@ == uuid_text(x)),
{
    match uuid::Uuid::parse_str(s) {
        Ok(u) => Some(u.as_u128()),
        Err(_) => None,
    }
}

pub const ROUTE_STATS_NS: u128 = 0xa1b2c3d4_e5f6_7890_abcd_ef1234567001u128;
pub const WFP_STATE_NS: u128 = 0xa1b2c3d4_e5f6_7890_abcd_ef1234567002u128;
pub const DOMAIN_CACHE_NS: u128 = 0xa1b2c3d4_e5f6_7890_abcd_ef1234567003u128;

/// Text of an optional identifier: its hyphenated form, or empty.
pub open spec fn opt_id_text(id: Option<u128>) -> Seq<char> {
    match id {
        Some(v) => uuid_text(v),
        None => Seq::empty(),
    }
}

/// Text of an optional string: the string, or empty.
pub open spec fn opt_text(s: Option<Seq<char>>) -> Seq<char> {
    match s {
        Some(v) => v,
        None => Seq::empty(),
    }
}

/// Key of a route-statistics bucket: `app|profile|domain|route_type|window_start`.
pub open spec fn route_statistics_key(
    app_id: Option<u128>,
    profile_id: Option<u128>,
    domain: Option<Seq<char>>,
    route_type: Seq<char>,
    window_start: Seq<char>,
) -> Seq<char> {
    opt_id_text(app_id) + seq!['|'] + opt_id_text(profile_id) + seq!['|'] + opt_text(domain)
        + seq!['|'] + route_type + seq!['|'] + window_start
}

/// Key of a WFP filter-state bucket: `scope_type|scope_value`.
pub open spec fn wfp_filter_state_key(scope_type: Seq<char>, scope_value: Option<Seq<char>>) -> Seq<char> {
    scope_type + seq!['|'] + opt_text(scope_value)
}

/// Key of a domain-cache row: `app|ip`.
pub open spec fn domain_cache_key(app_id: Option<u128>, ip: Seq<char>) -> Seq<char> {
    opt_id_text(app_id) + seq!['|'] + ip
}

fn append_opt_id(s: &mut String, id: Option<u128>)
    ensures
        final(s)@ == old(s)@ + opt_id_text(id),
{
    match id {
        Some(v) => {
            let t = uuid_to_string(v);
            s.append(t.as_str());
        },
        None => {
            assert(old(s)@ + opt_id_text(id) =~= old(s)@);
        },
    }
}

fn append_opt_str(s: &mut String, v: Option<&str>)
    ensures
        final(s)@ == old(s)@ + opt_text(
            match v {
                Some(x) => Some(x@),
                None => None,
            },
        ),
{
    match v {
        Some(x) => {
            s.append(x);
        },
        None => {
            assert(old(s)@ + Seq::<char>::empty() =~= old(s)@);
        },
    }
}

fn bar() -> (r: &'static str)
    ensures
        r@ == seq!['|'],
{
    proof {
        reveal_strlit("|");
    }
    "|"
}

/// Deterministic id of a route-statistics bucket; `None` when the window start
/// (milliseconds since the epoch) is outside the range chrono can represent.
pub fn route_statistics_id(
    app_id: Option<u128>,
    profile_id: Option<u128>,
    domain: Option<&str>,
    route_type: &str,
    window_start_millis: i64,
) -> (r: Option<u128>)
    ensures
        r.is_some() == utc_rfc3339(window_start_millis).is_some(),
        r matches Some(id) ==> id == uuid_v5(
            ROUTE_STATS_NS,
            encode_utf8(
                route_statistics_key(
                    app_id,
                    profile_id,
                    match domain {
                        Some(d) => Some(d@),
                        None => None,
                    },
                    route_type@,
                    utc_rfc3339(window_start_millis)->Some_0,
                ),
            ),
        ),
{
    let ts = match rfc3339_at_millis(window_start_millis) {
        Some(t) => t,
        None => return None,
    };
    let mut key = String::new();
    append_opt_id(&mut key, app_id);
    key.append(bar());
    append_opt_id(&mut key, profile_id);
    key.append(bar());
    append_opt_str(&mut key, domain);
    key.append(bar());
    key.append(route_type);
    key.append(bar());
    key.append(ts.as_str());
    assert(key@ =~= route_statistics_key(
        app_id,
        profile_id,
        match domain {
            Some(d) => Some(d@),
            None => None,
        },
        route_type@,
        ts@,
    ));
    Some(new_v5(ROUTE_STATS_NS, key.as_str().as_bytes()))
}

/// Deterministic id of a WFP filter-state bucket.
pub fn wfp_filter_state_id(scope_type: &str, scope_value: Option<&str>) -> (r: u128)
    ensures
        r == uuid_v5(
            WFP_STATE_NS,
            encode_utf8(
                wfp_filter_state_key(
                    scope_type@,
                    match scope_value {
                        Some(v) => Some(v@),
                        None => None,
                    },
                ),
            ),
        ),
{
    let mut key = String::from_str(scope_type);
    key.append(bar());
    append_opt_str(&mut key, scope_value);
    assert(key@ =~= wfp_filter_state_key(
        scope_type@,
        match scope_value {
            Some(v) => Some(v@),
            None => None,
        },
    ));
    new_v5(WFP_STATE_NS, key.as_str().as_bytes())
}

/// Deterministic id of a domain-cache row.
pub fn domain_cache_id(app_id: Option<u128>, ip_address: &str) -> (r: u128)
    ensures
        r == uuid_v5(DOMAIN_CACHE_NS, encode_utf8(domain_cache_key(app_id, ip_address@))),
{
    let mut key = String::new();
    append_opt_id(&mut key, app_id);
    key.append(bar());
    key.append(ip_address);
    assert(key@ =~= domain_cache_key(app_id, ip_address@));
    new_v5(DOMAIN_CACHE_NS, key.as_str().as_bytes())
}

} // verus!
