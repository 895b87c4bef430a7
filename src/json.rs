//! What the library takes from serde_json: telling well-formed JSON text,
//! reading a string or integer member out of a JSON object, and writing a
//! string as a JSON string literal.
use vstd::prelude::*;
use crate::protocol::opt_text;

verus! {

/// Whether serde_json reads `text` whole as one JSON value (it refuses, besides
/// malformed text, nesting deeper than its fixed recursion limit).
pub uninterp spec fn is_json_text(text: Seq<char>) -> bool;

/// Whether serde_json reads `text` as a JSON object.
pub uninterp spec fn is_json_object_text(text: Seq<char>) -> bool;

/// The string member `key` of the JSON object that `text` holds, as serde_json
/// reads it; `None` where there is no such member or it is no string.
pub uninterp spec fn json_str_member(text: Seq<char>, key: Seq<char>) -> Option<Seq<char>>;

/// The string member `key` of the object member `outer` of the JSON object
/// that `text` holds, as serde_json reads it.
pub uninterp spec fn json_str_member_in(text: Seq<char>, outer: Seq<char>, key: Seq<char>) -> Option<
    Seq<char>,
>;

/// The member `key` of the object member `outer` of the JSON object that `text`
/// holds, where it is an integer that fits in 64 bits unsigned.
pub uninterp spec fn json_u64_member_in(text: Seq<char>, outer: Seq<char>, key: Seq<char>) -> Option<
    u64,
>;

/// Relies on `serde_json::from_str::<Value>`: it succeeds exactly on the texts
/// that it reads as one JSON value.
#[verifier::external_body]
pub fn is_json(text: &str) -> (r: bool)
    ensures
        r == is_json_text(text@),
{
    serde_json::from_str::<serde_json::Value>(text).is_ok()
}

/// Relies on `serde_json::from_str::<Value>` and `Value::is_object`: whether
/// the text reads as a JSON object; an object is well-formed JSON.
#[verifier::external_body]
pub fn is_json_object(text: &str) -> (r: bool)
    ensures
        r == is_json_object_text(text@),
        r ==> is_json_text(text@),
{
    match serde_json::from_str::<serde_json::Value>(text) {
        Ok(v) => v.is_object(),
        Err(_) => false,
    }
}

/// Relies on `serde_json::from_str::<Value>`, `Value::get` and `Value::as_str`:
/// `get` with a string key finds members of objects only, so a text that is
/// not a JSON object has no member.
#[verifier::external_body]
pub fn str_member(text: &str, key: &str) -> (r: Option<String>)
    ensures
        opt_text(r) == json_str_member(text@, key@),
        r is Some ==> is_json_text(text@) && is_json_object_text(text@),
{
    let v: serde_json::Value = serde_json::from_str(text).ok()?;
    Some(v.get(key)?.as_str()?.to_string())
}

/// Relies on `serde_json::from_str::<Value>`, `Value::get` (twice) and
/// `Value::as_str`, as `str_member` does, one object deeper.
#[verifier::external_body]
pub fn str_member_in(text: &str, outer: &str, key: &str) -> (r: Option<String>)
    ensures
        opt_text(r) == json_str_member_in(text@, outer@, key@),
        r is Some ==> is_json_text(text@) && is_json_object_text(text@),
{
    let v: serde_json::Value = serde_json::from_str(text).ok()?;
    Some(v.get(outer)?.get(key)?.as_str()?.to_string())
}

/// Relies on `serde_json::from_str::<Value>`, `Value::get` (twice) and
/// `Value::as_u64`: a non-negative integer member that fits in 64 bits.
#[verifier::external_body]
pub fn u64_member_in(text: &str, outer: &str, key: &str) -> (r: Option<u64>)
    ensures
        r == json_u64_member_in(text@, outer@, key@),
        r is Some ==> is_json_text(text@) && is_json_object_text(text@),
{
    let v: serde_json::Value = serde_json::from_str(text).ok()?;
    v.get(outer)?.get(key)?.as_u64()
}

/// A lower-case hexadecimal digit.
pub open spec fn hex_digit(n: nat) -> char {
    if n == 0 { '0' } else if n == 1 { '1' } else if n == 2 { '2' } else if n == 3 { '3' }
    else if n == 4 { '4' } else if n == 5 { '5' } else if n == 6 { '6' } else if n == 7 { '7' }
    else if n == 8 { '8' } else if n == 9 { '9' } else if n == 10 { 'a' } else if n == 11 { 'b' }
    else if n == 12 { 'c' } else if n == 13 { 'd' } else if n == 14 { 'e' } else { 'f' }
}

/// How one character stands inside a JSON string literal: `"` and `\` behind a
/// backslash, the five control characters with a short escape as such, the
/// other control characters as `\u00xx`, anything else as itself.
pub open spec fn escaped_char(c: char) -> Seq<char> {
    if c == '"' {
        seq!['\\', '"']
    } else if c == '\\' {
        seq!['\\', '\\']
    } else if c == '\u{8}' {
        seq!['\\', 'b']
    } else if c == '\t' {
        seq!['\\', 't']
    } else if c == '\n' {
        seq!['\\', 'n']
    } else if c == '\u{c}' {
        seq!['\\', 'f']
    } else if c == '\r' {
        seq!['\\', 'r']
    } else if (c as u32) < 0x20 {
        seq!['\\', 'u', '0', '0', hex_digit((c as u32) as nat / 16), hex_digit((c as u32) as nat % 16)]
    } else {
        seq![c]
    }
}

pub open spec fn escaped(s: Seq<char>) -> Seq<char>
    decreases s.len(),
{
    if s.len() == 0 {
        Seq::empty()
    } else {
        escaped_char(s[0]) + escaped(s.drop_first())
    }
}

/// The JSON string literal for the characters `s`.
pub open spec fn json_quoted(s: Seq<char>) -> Seq<char> {
    seq!['"'] + escaped(s) + seq!['"']
}

/// A character that stands for itself inside a JSON string literal.
pub open spec fn is_plain_char(c: char) -> bool {
    c != '"' && c != '\\' && (c as u32) >= 0x20
}

/// Relies on serde_json's compact writer (`Display` for `Value`) on a string
/// value: a quote, each character escaped as its escape table says, a quote.
#[verifier::external_body]
pub fn json_string(s: &str) -> (r: String)
    ensures
        r@ == json_quoted(s@),
{
    serde_json::Value::String(s.to_string()).to_string()
}

/// Text without quotes, backslashes or control characters is written between
/// two quotes as it stands.
pub proof fn lemma_plain_text_quoted(s: Seq<char>)
    requires
        forall|i: int| 0 <= i < s.len() ==> is_plain_char(#[trigger] s[i]),
    ensures
        json_quoted(s) == seq!['"'] + s + seq!['"'],
{
    lemma_plain_escaped(s);
}

proof fn lemma_plain_escaped(s: Seq<char>)
    requires
        forall|i: int| 0 <= i < s.len() ==> is_plain_char(#[trigger] s[i]),
    ensures
        escaped(s) == s,
    decreases s.len(),
{
    if s.len() > 0 {
        let t = s.drop_first();
        assert forall|i: int| 0 <= i < t.len() implies is_plain_char(#[trigger] t[i]) by {
            assert(t[i] == s[i + 1]);
        }
        lemma_plain_escaped(t);
        assert(is_plain_char(s[0]));
        assert(escaped_char(s[0]) == seq![s[0]]);
        assert(s =~= seq![s[0]] + t);
    }
}

} // verus!
