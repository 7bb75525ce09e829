//! What the library takes from `serde_json`: the quoting of a string and the
//! reading of a document. Nothing in this file is proved; each contract
//! restates what `serde_json` does, and each `requires` leaves out the texts
//! on which it may not return.

use vstd::prelude::*;

verus! {

/// A parsed JSON document, `serde_json::Value`, carried through unread.
#[verifier::external_type_specification]
#[verifier::external_body]
pub struct ExJsonValue(serde_json::Value);

/// The error of `serde_json`, carried through unread.
#[verifier::external_type_specification]
#[verifier::external_body]
pub struct ExJsonError(serde_json::Error);

/// The digits of base sixteen, as JSON escapes write them.
pub const HEX_DIGITS: &'static str = "0123456789abcdef";

/// How one character stands inside a JSON string literal: a quote and a
/// backslash behind a backslash, five control characters as a letter behind
/// a backslash, the other characters below the space as `\u00` and two
/// digits of base sixteen, and every other character as it is.
pub open spec fn json_escape(c: char) -> Seq<char> {
    if c == '"' {
        seq!['\\', '"']
    } else if c == '\\' {
        seq!['\\', '\\']
    } else if c == '\u{8}' {
        seq!['\\', 'b']
    } else if c == '\t' {
        seq!['\\', 't']
    } else if c == '\n' {
        seq!['\\', 'n']
    } else if c == '\u{c}' {
        seq!['\\', 'f']
    } else if c == '\r' {
        seq!['\\', 'r']
    } else if (c as u32) < 0x20 {
        seq![
            '\\',
            'u',
            '0',
            '0',
            HEX_DIGITS@[(c as int) / 16],
            HEX_DIGITS@[(c as int) % 16],
        ]
    } else {
        seq![c]
    }
}

/// The characters of a text, each as it stands inside a JSON string literal.
pub open spec fn json_escaped(text: Seq<char>) -> Seq<char>
    decreases text.len(),
{
    if text.len() == 0 {
        Seq::empty()
    } else {
        json_escaped(text.drop_last()) + json_escape(text.last())
    }
}

/// The JSON string literal of a text: the escaped text between double
/// quotes.
pub open spec fn json_string_literal(text: Seq<char>) -> Seq<char> {
    seq!['"'] + json_escaped(text) + seq!['"']
}

/// The longest text that is read as JSON, in characters. The parser of
/// `serde_json` counts the digits of a number in 31 bits.
pub const MAX_DOCUMENT_CHARS: usize = 0x7fff_ffff;

/// What `serde_json::from_str` makes of a text: `None` where it refuses the
/// text, which it does where the text is not one well-formed JSON value and
/// where the value is nested more than 128 levels deep; else the members of
/// that value that are strings, by key (none where the value is not an
/// object).
pub uninterp spec fn json_document(text: Seq<char>) -> Option<Map<Seq<char>, Seq<char>>>;

/// The members of a parsed document that are strings, by key. A document
/// that is not an object has none.
pub uninterp spec fn json_string_members(doc: serde_json::Value) -> Map<Seq<char>, Seq<char>>;

/// Calls `serde_json::to_string` on a string slice. The call writes into a
/// byte vector, which takes every write, and a string slice serialises as one
/// string, so the result is always `Ok`. What it writes is a quote, each
/// character as its escape table has it, and a quote.
#[verifier::external_body]
pub(crate) fn quote(text: &str) -> (r: Result<String, serde_json::Error>)
    ensures
        r is Ok,
        r->Ok_0@ == json_string_literal(text@),
{
    serde_json::to_string(text)
}

/// Calls `serde_json::from_str` for a `serde_json::Value`. It succeeds exactly
/// on the texts that are a document, and the value it returns has the string
/// members of that document. A text above the limit is left out: a number of
/// more than 2^31 digits overflows the parser's count of them.
#[verifier::external_body]
pub(crate) fn parse(text: &str) -> (r: Result<serde_json::Value, serde_json::Error>)
    requires
        text@.len() <= MAX_DOCUMENT_CHARS,
    ensures
        r is Ok <==> json_document(text@) is Some,
        r matches Ok(doc) ==> json_document(text@) == Some(json_string_members(doc)),
{
    serde_json::from_str::<serde_json::Value>(text)
}

/// Calls `serde_json::Value::get` with a key, and hands out a copy of the
/// member found where it is a string. `get` returns `None` for a value that
/// is not an object and for a key that the object lacks.
#[verifier::external_body]
pub(crate) fn string_member(doc: &serde_json::Value, key: &str) -> (r: Option<String>)
    ensures
        r is Some <==> json_string_members(*doc).contains_key(key@),
        r matches Some(s) ==> s@ == json_string_members(*doc)[key@],
{
    match doc.get(key) {
        Some(serde_json::Value::String(s)) => Some(s.clone()),
        _ => None,
    }
}

} // verus!
