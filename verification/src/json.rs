//! JSON string literals, through serde_json.

use vstd::prelude::*;
use crate::ids::hex_digit;

verus! {

/// Name for what `serde_json::from_str::<String>` gives for a text: the decoded
/// string when the text is a JSON string literal, `None` otherwise.
pub uninterp spec fn json_string_value(text: Seq<char>) -> Option<Seq<char>>;

/// How serde_json writes one character inside a string literal: `"` and `\`
/// after a backslash; backspace, tab, line feed, form feed and carriage return
/// as `\b`, `\t`, `\n`, `\f`, `\r`; other control characters below U+0020
/// as `\u00` and two lower-case hex digits; every other character as it is.
pub open spec fn json_char_escape(c: char) -> Seq<char> {
    if c == '"' {
        seq!['\\', '"']
    } else if c == '\\' {
        seq!['\\', '\\']
    } else if c == '\u{8}' {
        seq!['\\', 'b']
    } else if c == '\t' {
        seq!['\\', 't']
    } else if c == '\n' {
        seq!['\\', 'n']
    } else if c == '\u{c}' {
        seq!['\\', 'f']
    } else if c == '\r' {
        seq!['\\', 'r']
    } else if (c as int) < 0x20 {
        seq!['\\', 'u', '0', '0', hex_digit((c as int) / 16), hex_digit((c as int) % 16)]
    } else {
        seq![c]
    }
}

/// The characters of `s`, each escaped as serde_json writes it.
pub open spec fn json_escaped(s: Seq<char>) -> Seq<char>
    decreases s.len(),
{
    if s.len() == 0 {
        Seq::empty()
    } else {
        json_escaped(s.drop_last()) + json_char_escape(s.last())
    }
}

/// The JSON string literal `serde_json::to_string` writes for a string: the
/// escaped characters between double quotes.
pub open spec fn json_string_literal(s: Seq<char>) -> Seq<char> {
    seq!['"'] + json_escaped(s) + seq!['"']
}

/// First character that can open a JSON string value: `"` or the JSON
/// whitespace that the parser skips before it.
pub open spec fn may_open_json_string(c: char) -> bool {
    c == '"' || c == ' ' || c == '\n' || c == '\t' || c == '\r'
}

/// `serde_json::from_str::<String>(text).ok()`; the contract names the result.
/// Beside the name it states two facts that serde_json's source shows: a text
/// that is empty or opens with anything but whitespace or `"` is refused
/// (`deserialize_str` peeks past whitespace and accepts only `"`), and a
/// literal that `serde_json::to_string` wrote reads back as its string.
#[verifier::external_body]
pub(crate) fn decode_json_string(text: &str) -> (r: Option<String>)
    ensures
        r.is_some() == json_string_value(text@).is_some(),
        r matches Some(s) ==> json_string_value(text@) == Some(s@),
        r.is_none() || (text@.len() > 0 && may_open_json_string(text@[0])),
        r is Some || forall|s: Seq<char>| text@ != #[trigger] json_string_literal(s),
        r matches Some(v) ==> forall|s: Seq<char>| text@ == #[trigger] json_string_literal(s) ==> v@ == s,
{
    serde_json::from_str::<String>(text).ok()
}

/// `serde_json::to_string(s)`: the contract states the literal it writes
/// (`json_string_literal`, from serde_json's escape table and its
/// `CompactFormatter`) and that serde_json reads it back as `s`. Writing a
/// string cannot fail.
#[verifier::external_body]
pub(crate) fn encode_json_string(s: &str) -> (r: String)
    ensures
        r@ == json_string_literal(s@),
        json_string_value(r@) == Some(s@),
{
    match serde_json::to_string(s) {
        Ok(t) => t,
        Err(_) => String::new(),
    }
}

} // verus!
