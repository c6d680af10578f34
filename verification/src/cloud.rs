//! Helpers shared by the cloud and controller agents.

use vstd::prelude::*;
use crate::ids::{uuid_text, uuid_to_string};
use crate::text::{trim_end_char, trim_end_matches_char};

verus! {

/// Base URL of a service: the configured URL without trailing slashes.
pub open spec fn base_url(url: Seq<char>) -> Seq<char> {
    trim_end_char(url, '/')
}

pub fn base_of(url: &str) -> (r: String)
    ensures
        r@ == base_url(url@),
{
    trim_end_matches_char(url, '/')
}

/// Concatenation of text pieces.
pub fn join3(a: &str, b: &str, c: &str) -> (r: String)
    ensures
        r@ == a@ + b@ + c@,
{
    let mut s = String::from_str(a);
    s.append(b);
    s.append(c);
    s
}

/// `a`, the hyphenated id, then `b`.
pub fn join_id(a: &str, id: u128, b: &str) -> (r: String)
    ensures
        r@ == a@ + uuid_text(id) + b@,
{
    let t = uuid_to_string(id);
    join3(a, t.as_str(), b)
}

/// Whether a character is white space in the Unicode sense (`char::is_whitespace`).
pub open spec fn is_unicode_space(c: char) -> bool {
    ('\u{9}' <= c && c <= '\u{d}') || c == ' ' || c == '\u{85}' || c == '\u{a0}' || c == '\u{1680}' || (
    '\u{2000}' <= c && c <= '\u{200a}') || c == '\u{2028}' || c == '\u{2029}' || c == '\u{202f}' || c
        == '\u{205f}' || c == '\u{3000}'
}

fn space(c: char) -> (r: bool)
    ensures
        r == is_unicode_space(c),
{
    ('\u{9}' <= c && c <= '\u{d}') || c == ' ' || c == '\u{85}' || c == '\u{a0}' || c == '\u{1680}' || (
    '\u{2000}' <= c && c <= '\u{200a}') || c == '\u{2028}' || c == '\u{2029}' || c == '\u{202f}' || c
        == '\u{205f}' || c == '\u{3000}'
}

/// Whether a text is empty once white space is trimmed.
pub fn is_blank(s: &str) -> (r: bool)
    ensures
        r == (forall|i: int| 0 <= i < s@.len() ==> is_unicode_space(#[trigger] s@[i])),
{
    let n = s.unicode_len();
    let mut i: usize = 0;
    while i < n
        invariant
            n == s@.len(),
            i <= n,
            forall|j: int| 0 <= j < i ==> is_unicode_space(#[trigger] s@[j]),
        decreases n - i,
    {
        if !space(s.get_char(i)) {
            return false;
        }
        i += 1;
    }
    true
}

/// An HTTP header to send.
pub struct Header {
    pub name: String,
    pub value: String,
}

/// `Bearer <token>`.
pub fn bearer_value(token: &str) -> (r: String)
    ensures
        r@ == "Bearer "@ + token@,
{
    let mut s = String::from_str("Bearer ");
    s.append(token);
    s
}

/// How a reporter starts.
pub enum ReporterStart {
    /// Not enabled, or no cloud URL: no task.
    Disabled,
    /// Enabled without a tenant: no task, a warning.
    MissingTenant,
    /// Pushes to `base` for `tenant_id` every `interval_secs` seconds.
    Ready { base: String, tenant_id: u128, interval_secs: u64 },
}

/// The start of a reporter whose interval is at least `floor` seconds.
pub open spec fn reporter_start(
    r: ReporterStart,
    enabled: bool,
    url: Seq<char>,
    tenant_id: Option<u128>,
    interval_secs: u64,
    floor: u64,
) -> bool {
    if !enabled || url.len() == 0 {
        r is Disabled
    } else {
        match tenant_id {
            None => r is MissingTenant,
            Some(t) => r matches ReporterStart::Ready { base, tenant_id, interval_secs: i } && base@ == base_url(
                url,
            ) && tenant_id == t && i == (if interval_secs < floor {
                floor
            } else {
                interval_secs
            }),
        }
    }
}

pub(crate) fn start(enabled: bool, url: &String, tenant_id: Option<u128>, interval_secs: u64, floor: u64) -> (r:
    ReporterStart)
    ensures
        reporter_start(r, enabled, url@, tenant_id, interval_secs, floor),
{
    if !enabled || url.as_str().unicode_len() == 0 {
        return ReporterStart::Disabled;
    }
    match tenant_id {
        None => ReporterStart::MissingTenant,
        Some(t) => ReporterStart::Ready {
            base: base_of(url.as_str()),
            tenant_id: t,
            interval_secs: if interval_secs < floor {
                floor
            } else {
                interval_secs
            },
        },
    }
}

/// `{base}/api/v1/cloud/{what}`.
pub open spec fn cloud_url(base: Seq<char>, what: Seq<char>) -> Seq<char> {
    base + "/api/v1/cloud/"@ + what
}

pub(crate) fn cloud_endpoint(base: &str, what: &str) -> (r: String)
    ensures
        r@ == cloud_url(base@, what@),
{
    let mut s = String::from_str(base);
    s.append("/api/v1/cloud/");
    s.append(what);
    s
}

/// A version 4 identifier: version nibble 4 and the RFC 4122 variant bits `10`.
pub open spec fn is_v4(x: u128) -> bool {
    &&& x & 0xf000_0000_0000_0000_0000u128 == 0x4000_0000_0000_0000_0000u128
    &&& x & 0xc000_0000_0000_0000u128 == 0x8000_0000_0000_0000u128
}

/// A fresh random identifier (`uuid::Uuid::new_v4`). Which one comes from the
/// operating system's random source and is not stated; its version and
/// variant bits are (`new_v4` masks them in).
#[verifier::external_body]
pub(crate) fn random_uuid() -> (r: u128)
    ensures
        is_v4(r),
{
    uuid::Uuid::new_v4().as_u128()
}

} // verus!
