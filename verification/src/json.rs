//! The JSON reader and writer that the codec builds on.
//!
//! Nothing in this file is proved. Each function hands one piece of text to
//! the `serde_json` crate and returns what came back. What the writer
//! returns is stated in full. What the reader returns depends on the text
//! alone, so each of its results has a name, and the contracts of the codec
//! are stated over these names.

use vstd::prelude::*;

verus! {

/// The character that stands for a hexadecimal digit, in lower case.
pub open spec fn hex_digit(d: int) -> char {
    if d == 0 {
        '0'
    } else if d == 1 {
        '1'
    } else if d == 2 {
        '2'
    } else if d == 3 {
        '3'
    } else if d == 4 {
        '4'
    } else if d == 5 {
        '5'
    } else if d == 6 {
        '6'
    } else if d == 7 {
        '7'
    } else if d == 8 {
        '8'
    } else if d == 9 {
        '9'
    } else if d == 10 {
        'a'
    } else if d == 11 {
        'b'
    } else if d == 12 {
        'c'
    } else if d == 13 {
        'd'
    } else if d == 14 {
        'e'
    } else {
        'f'
    }
}

/// How one character stands in a JSON string literal: the quote, the
/// backslash and the control characters below U+0020 are escaped, the
/// control characters without a short form as `\u00` and two hexadecimal
/// digits; every other character stands for itself.
pub open spec fn escaped(c: char) -> Seq<char> {
    let code = c as u32 as int;
    if c == '"' {
        seq!['\\', '"']
    } else if c == '\\' {
        seq!['\\', '\\']
    } else if code == 0x08 {
        seq!['\\', 'b']
    } else if code == 0x09 {
        seq!['\\', 't']
    } else if code == 0x0A {
        seq!['\\', 'n']
    } else if code == 0x0C {
        seq!['\\', 'f']
    } else if code == 0x0D {
        seq!['\\', 'r']
    } else if code < 0x20 {
        seq!['\\', 'u', '0', '0', hex_digit(code / 16), hex_digit(code % 16)]
    } else {
        seq![c]
    }
}

/// The characters of a text, each as it stands in a JSON string literal.
pub open spec fn escaped_text(text: Seq<char>) -> Seq<char>
    decreases text.len(),
{
    if text.len() == 0 {
        Seq::empty()
    } else {
        escaped_text(text.drop_last()) + escaped(text.last())
    }
}

/// The JSON string literal of a text: the escaped text between two quotes.
pub open spec fn json_literal(text: Seq<char>) -> Seq<char> {
    seq!['"'] + escaped_text(text) + seq!['"']
}

/// The string that `serde_json::from_str` reads from `document` when asked
/// for a `String`; `None` when the document is not one JSON string.
pub uninterp spec fn json_text(document: Seq<char>) -> Option<Seq<char>>;

/// The number that `serde_json::from_str` reads from `document` when asked
/// for a `u32`; `None` when the document is not one JSON number that a `u32`
/// holds.
pub uninterp spec fn json_number(document: Seq<char>) -> Option<u32>;

/// The members that `serde_json::from_str` reads from `document` when asked
/// for a map from strings to raw values: each member's key, and the JSON
/// text of its value as it stands in the document. The reader keeps the
/// members in a map, so a key comes once, with the value written last.
/// `None` when the document is not one JSON object.
pub uninterp spec fn json_members(document: Seq<char>) -> Option<Seq<(Seq<char>, Seq<char>)>>;

/// Calls `serde_json::to_string` on a string slice. The contract claims
/// that the call succeeds and yields the JSON string literal of `text`: the
/// writer puts the text between two quotes and escapes the quote, the
/// backslash and the control characters below U+0020, and writing into
/// memory cannot fail.
#[verifier::external_body]
pub(crate) fn quote(text: &str) -> (out: Option<String>)
    ensures
        out.deep_view() == Some(json_literal(text@)),
{
    serde_json::to_string(text).ok()
}

/// Calls `serde_json::from_str` for a `String`. The contract only names the
/// result: the string that the document holds, or `None` where the call
/// fails.
#[verifier::external_body]
pub(crate) fn parse_text(document: &str) -> (out: Option<String>)
    ensures
        out.deep_view() == json_text(document@),
{
    serde_json::from_str::<String>(document).ok()
}

/// Calls `serde_json::from_str` for a `u32`. The contract only names the
/// result: the number that the document holds, or `None` where the call
/// fails.
#[verifier::external_body]
pub(crate) fn parse_number(document: &str) -> (out: Option<u32>)
    ensures
        out == json_number(document@),
{
    serde_json::from_str::<u32>(document).ok()
}

/// Calls `serde_json::from_str` for a `BTreeMap` from `String` to
/// `Box<RawValue>` and hands out each entry as a pair of the key and of the
/// raw value's text (`RawValue::get`), in the map's order. The contract only
/// names the result, or `None` where the call fails.
#[verifier::external_body]
pub(crate) fn parse_members(document: &str) -> (out: Option<Vec<(String, String)>>)
    ensures
        out.deep_view() == json_members(document@),
{
    let parsed = serde_json::from_str::<
        std::collections::BTreeMap<String, Box<serde_json::value::RawValue>>,
    >(document);
    match parsed {
        Ok(map) => Some(map.into_iter().map(|(key, raw)| (key, String::from(raw.get()))).collect()),
        Err(_) => None,
    }
}

} // verus!
