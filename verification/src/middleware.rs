//! Request gating of the local API: WebSocket connection slots and bearer tokens.

use vstd::prelude::*;
use crate::error::{ApiStatus, ServiceError};
use crate::text::{is_prefix_of, starts_with, str_eq};

verus! {

/// Most WebSocket connections served at once.
pub const MAX_WS_CONNECTIONS: u64 = 5;

/// Counter of WebSocket connections in use.
pub struct WsConnectionGate {
    count: u64,
}

impl View for WsConnectionGate {
    type V = u64;

    closed spec fn view(&self) -> u64 {
        self.count
    }
}

impl WsConnectionGate {
    pub fn new() -> (r: Self)
        ensures
            r@ == 0,
    {
        WsConnectionGate { count: 0 }
    }

    pub fn count(&self) -> (r: u64)
        ensures
            r == self@,
    {
        self.count
    }
}

/// Connections in use after a slot is requested: one more, unless all are taken.
pub open spec fn after_acquire(count: u64) -> u64 {
    if count < MAX_WS_CONNECTIONS {
        (count + 1) as u64
    } else {
        count
    }
}

/// Connections in use after a slot is freed (the counter wraps below zero, as
/// an atomic `fetch_sub` does).
pub open spec fn after_release(count: u64) -> u64 {
    if count == 0 {
        u64::MAX
    } else {
        (count - 1) as u64
    }
}

/// Takes a connection slot: refused with 429 when all slots are in use.
pub fn ws_connection_acquired(gate: &mut WsConnectionGate) -> (r: Result<(), ApiStatus>)
    ensures
        final(gate)@ == after_acquire(old(gate)@),
        old(gate)@ < MAX_WS_CONNECTIONS ==> r is Ok,
        old(gate)@ >= MAX_WS_CONNECTIONS ==> r == Err::<(), ApiStatus>(ApiStatus::TooManyRequests),
{
    let current = gate.count;
    if current >= MAX_WS_CONNECTIONS {
        return Err(ApiStatus::TooManyRequests);
    }
    gate.count = current + 1;
    Ok(())
}

/// Frees a connection slot (the counter wraps when none was taken).
pub fn ws_connection_released(gate: &mut WsConnectionGate)
    ensures
        final(gate)@ == after_release(old(gate)@),
{
    gate.count = gate.count.wrapping_sub(1);
}

/// Value of the `token` pair of a query string, if any.
pub open spec fn spec_first_index(s: Seq<char>, c: char) -> int
    decreases s.len(),
{
    if s.len() == 0 {
        0
    } else if s[0] == c {
        0
    } else {
        1 + spec_first_index(s.drop_first(), c)
    }
}

/// Value of a `key=value` pair whose key is `token`.
pub open spec fn spec_pair_token(p: Seq<char>) -> Option<Seq<char>> {
    let j = spec_first_index(p, '=');
    if j >= p.len() {
        None
    } else if p.subrange(0, j) == seq!['t', 'o', 'k', 'e', 'n'] {
        Some(p.subrange(j + 1, p.len() as int))
    } else {
        None
    }
}

/// Value of the first `token=` pair of an `&`-separated query string.
pub open spec fn spec_query_token(s: Seq<char>) -> Option<Seq<char>>
    decreases s.len(),
{
    let i = spec_first_index(s, '&');
    if spec_pair_token(s.subrange(0, i)) is Some {
        spec_pair_token(s.subrange(0, i))
    } else if i >= s.len() {
        None
    } else {
        proof {
            lemma_first_index_bounds(s, '&');
        }
        spec_query_token(s.subrange(i + 1, s.len() as int))
    }
}

pub proof fn lemma_first_index_bounds(s: Seq<char>, c: char)
    ensures
        0 <= spec_first_index(s, c) <= s.len(),
        spec_first_index(s, c) < s.len() ==> s[spec_first_index(s, c)] == c,
        forall|k: int| 0 <= k < spec_first_index(s, c) ==> s[k] != c,
    decreases s.len(),
{
    if s.len() > 0 && s[0] != c {
        lemma_first_index_bounds(s.drop_first(), c);
        assert forall|k: int| 0 <= k < spec_first_index(s, c) implies s[k] != c by {
            if k > 0 {
                assert(s[k] == s.drop_first()[k - 1]);
            }
        }
    }
}

proof fn lemma_first_index_is(s: Seq<char>, c: char, j: int)
    requires
        0 <= j <= s.len(),
        j < s.len() ==> s[j] == c,
        forall|k: int| 0 <= k < j ==> s[k] != c,
    ensures
        spec_first_index(s, c) == j,
    decreases s.len(),
{
    if s.len() > 0 && j > 0 {
        assert forall|k: int| 0 <= k < j - 1 implies s.drop_first()[k] != c by {
            assert(s.drop_first()[k] == s[k + 1]);
        }
        lemma_first_index_is(s.drop_first(), c, j - 1);
    }
}

/// Position of the first `c` in `s` at or after `from` (its length if none).
fn index_of_from(s: &str, c: char, from: usize) -> (r: usize)
    requires
        from <= s@.len(),
    ensures
        from <= r <= s@.len(),
        r < s@.len() ==> s@[r as int] == c,
        forall|k: int| from <= k < r ==> s@[k] != c,
{
    let n = s.unicode_len();
    let mut i = from;
    while i < n
        invariant
            n == s@.len(),
            from <= i <= n,
            forall|k: int| from <= k < i ==> s@[k] != c,
        decreases n - i,
    {
        if s.get_char(i) == c {
            return i;
        }
        i += 1;
    }
    i
}

fn pair_token(p: &str) -> (r: Option<String>)
    ensures
        match r {
            Some(v) => spec_pair_token(p@) == Some(v@),
            None => spec_pair_token(p@).is_none(),
        },
{
    let n = p.unicode_len();
    let j = index_of_from(p, '=', 0);
    proof {
        lemma_first_index_is(p@, '=', j as int);
        reveal_strlit("token");
        assert("token"@ =~= seq!['t', 'o', 'k', 'e', 'n']);
    }
    if j >= n {
        return None;
    }
    let key = p.substring_char(0, j);
    if str_eq(key, "token") {
        Some(String::from_str(p.substring_char(j + 1, n)))
    } else {
        None
    }
}

/// Value of the first `token=` pair of an `&`-separated query string.
pub fn extract_bearer_from_query(query: &str) -> (r: Option<String>)
    ensures
        match r {
            Some(v) => spec_query_token(query@) == Some(v@),
            None => spec_query_token(query@).is_none(),
        },
{
    let n = query.unicode_len();
    let mut start: usize = 0;
    assert(query@.subrange(0, n as int) =~= query@);
    loop
        invariant
            n == query@.len(),
            start <= n,
            spec_query_token(query@) == spec_query_token(query@.subrange(start as int, n as int)),
        decreases n - start,
    {
        let end = index_of_from(query, '&', start);
        let ghost rest = query@.subrange(start as int, n as int);
        proof {
            lemma_first_index_is(rest, '&', end - start);
            assert(rest.subrange(0, end - start) =~= query@.subrange(start as int, end as int));
        }
        let pair = query.substring_char(start, end);
        if let Some(v) = pair_token(pair) {
            return Some(v);
        }
        if end >= n {
            return None;
        }
        proof {
            assert(rest.subrange(end - start + 1, rest.len() as int) =~= query@.subrange(end + 1, n as int));
        }
        start = end + 1;
    }
}

/// `Authorization: Bearer <token>` value, else the `X-API-Token` value.
pub open spec fn spec_bearer(authorization: Option<Seq<char>>, api_token: Option<Seq<char>>) -> Option<Seq<char>> {
    let bearer = seq!['B', 'e', 'a', 'r', 'e', 'r', ' '];
    match authorization {
        Some(a) if is_prefix_of(bearer, a) => Some(a.subrange(7, a.len() as int)),
        _ => api_token,
    }
}

/// Token of a request, from its `Authorization` and `X-API-Token` header values
/// (each absent when missing or not visible ASCII).
pub fn extract_bearer(authorization: Option<&str>, api_token: Option<&str>) -> (r: Option<String>)
    ensures
        match r {
            Some(v) => spec_bearer(
                match authorization {
                    Some(a) => Some(a@),
                    None => None,
                },
                match api_token {
                    Some(a) => Some(a@),
                    None => None,
                },
            ) == Some(v@),
            None => spec_bearer(
                match authorization {
                    Some(a) => Some(a@),
                    None => None,
                },
                match api_token {
                    Some(a) => Some(a@),
                    None => None,
                },
            ).is_none(),
        },
{
    proof {
        reveal_strlit("Bearer ");
        assert("Bearer "@ =~= seq!['B', 'e', 'a', 'r', 'e', 'r', ' ']);
    }
    if let Some(a) = authorization {
        if starts_with(a, "Bearer ") {
            let n = a.unicode_len();
            return Some(String::from_str(a.substring_char(7, n)));
        }
    }
    match api_token {
        Some(t) => Some(String::from_str(t)),
        None => None,
    }
}

/// Accepts a request whose token equals the expected one.
pub fn validate_token(expected: &str, provided: Option<&str>) -> (r: Result<(), ServiceError>)
    ensures
        match provided {
            Some(t) if t@ == expected@ => r is Ok,
            _ => r matches Err(ServiceError::Api(m)) && m@ == "unauthorized"@,
        },
{
    match provided {
        Some(t) => {
            if str_eq(t, expected) {
                return Ok(());
            }
        },
        None => {},
    }
    Err(ServiceError::Api(String::from_str("unauthorized")))
}

/// Requesting a slot while one is free and then releasing it gives back the
/// count of connections in use; and requests alone never take the count past
/// the limit.
pub proof fn law_acquire_release_restores(count: u64)
    ensures
        count < MAX_WS_CONNECTIONS ==> after_release(after_acquire(count)) == count,
        count <= MAX_WS_CONNECTIONS ==> after_acquire(count) <= MAX_WS_CONNECTIONS,
{
}

} // verus!
