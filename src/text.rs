//! JSON text: parsing an answer into a `Json` tree, and writing string literals.

use crate::error::CallError;
use crate::json::{Json, JsonNumber};
use vstd::prelude::*;

verus! {

/// A lower-case hexadecimal digit.
pub open spec fn hex_digit(d: u32) -> char {
    "0123456789abcdef"@[d as int]
}

/// How a character stands inside a JSON string literal: quote and backslash
/// escaped, the short escapes for backspace, tab, line feed, form feed and
/// carriage return, `\u00XX` for the other control characters, and any
/// other character as it is.
pub open spec fn escaped(c: char) -> Seq<char> {
    if c == '"' {
        seq!['\\', '"']
    } else if c == '\\' {
        seq!['\\', '\\']
    } else if c == '\u{8}' {
        seq!['\\', 'b']
    } else if c == '\t' {
        seq!['\\', 't']
    } else if c == '\n' {
        seq!['\\', 'n']
    } else if c == '\u{c}' {
        seq!['\\', 'f']
    } else if c == '\r' {
        seq!['\\', 'r']
    } else if (c as u32) < 0x20 {
        seq!['\\', 'u', '0', '0', hex_digit((c as u32) / 16), hex_digit((c as u32) % 16)]
    } else {
        seq![c]
    }
}

/// The characters of `s`, each as it stands inside a JSON string literal.
pub open spec fn escaped_all(s: Seq<char>) -> Seq<char>
    decreases s.len(),
{
    if s.len() == 0 {
        Seq::empty()
    } else {
        escaped_all(s.drop_last()) + escaped(s.last())
    }
}

/// The JSON string literal of `s`, quotes included.
pub open spec fn json_string_of(s: Seq<char>) -> Seq<char> {
    seq!['"'] + escaped_all(s) + seq!['"']
}

/// Relies on `serde_json::to_string`, applied to a string: its JSON literal.
/// The serializer writes into a `Vec`, whose writes never fail, so it succeeds.
#[verifier::external_body]
pub(crate) fn json_string(s: &str) -> (r: Result<String, serde_json::Error>)
    ensures
        r is Ok,
        r matches Ok(t) ==> t@ == json_string_of(s@),
{
    serde_json::to_string(s)
}

/// The value tree that the JSON library reads from `text`, in the form of a
/// `Json`, or `None` where the text is not JSON.
pub uninterp spec fn json_tree_of(text: Seq<char>) -> Option<Json>;

/// Relies on `serde_json::from_str`, read into a `serde_json::Value`: the value
/// tree of a JSON text, or the parser's diagnostic.
#[verifier::external_body]
fn parse_tree(text: &str) -> (r: Result<Json, serde_json::Error>)
    ensures
        r matches Ok(j) ==> json_tree_of(text@) == Some(j),
        r is Err <==> json_tree_of(text@) is None,
{
    serde_json::from_str::<serde_json::Value>(text).map(json_from_value)
}

/// Relies on the variants of `serde_json::Value`, and on iterating a
/// `serde_json::Map` for its members: takes a value tree one for one into a `Json`.
#[verifier::external_body]
fn json_from_value(v: serde_json::Value) -> (r: Json) {
    match v {
        serde_json::Value::Null => Json::Null,
        serde_json::Value::Bool(b) => Json::Bool(b),
        serde_json::Value::Number(n) => Json::Number(number_of(&n)),
        serde_json::Value::String(s) => Json::Str(s),
        serde_json::Value::Array(a) => Json::Array(a.into_iter().map(json_from_value).collect()),
        serde_json::Value::Object(m) => {
            Json::Object(m.into_iter().map(|(k, x)| (k, json_from_value(x))).collect())
        },
    }
}

/// Relies on the `Display` of `serde_json::Number`: its decimal text.
#[verifier::external_body]
fn number_text(n: &serde_json::Number) -> (r: String) {
    n.to_string()
}

/// A number of the JSON library as an integer where it is one, else as its text.
fn number_of(n: &serde_json::Number) -> (r: JsonNumber) {
    match n.as_u64() {
        Some(u) => JsonNumber::Unsigned(u),
        None => match n.as_i64() {
            Some(i) => JsonNumber::Negative(i),
            None => JsonNumber::Fraction(number_text(n)),
        },
    }
}

/// Parses a JSON text into its value tree; a text that is not JSON gives the
/// parser's diagnostic.
pub fn parse_json(text: &str) -> (r: Result<Json, CallError>)
    ensures
        r matches Ok(j) ==> json_tree_of(text@) == Some(j),
        r is Err <==> json_tree_of(text@) is None,
        r matches Err(e) ==> e is Json,
{
    match parse_tree(text) {
        Err(e) => Err(CallError::Json(e)),
        Ok(j) => Ok(j),
    }
}

} // verus!
