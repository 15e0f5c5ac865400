//! Tags are stored as a JSON array of strings; serde_json writes and reads
//! that array.
use vstd::prelude::*;

use crate::error::CtxError;
use crate::domain::text::{join, views};

verus! {

#[verifier::external_type_specification]
#[verifier::external_body]
pub struct ExJsonError(serde_json::Error);

/// The lowercase hexadecimal digits.
pub open spec fn hex_digits() -> Seq<char> {
    seq!['0', '1', '2', '3', '4', '5', '6', '7', '8', '9', 'a', 'b', 'c', 'd', 'e', 'f']
}

/// How serde_json writes one character inside a string: `"` and `\`
/// after a backslash; backspace, tab, line feed, form feed and carriage
/// return as `\b`, `\t`, `\n`, `\f`, `\r`; any other character below
/// U+0020 as `\u00` and two lowercase hex digits; every other character as
/// itself.
pub open spec fn json_char(c: char) -> Seq<char> {
    if c == '"' {
        seq!['\\', '"']
    } else if c == '\\' {
        seq!['\\', '\\']
    } else if c == '\u{8}' {
        seq!['\\', 'b']
    } else if c == '\t' {
        seq!['\\', 't']
    } else if c == '\n' {
        seq!['\\', 'n']
    } else if c == '\u{c}' {
        seq!['\\', 'f']
    } else if c == '\r' {
        seq!['\\', 'r']
    } else if (c as int) < 0x20 {
        seq!['\\', 'u', '0', '0', hex_digits()[(c as int) / 16], hex_digits()[(c as int) % 16]]
    } else {
        seq![c]
    }
}

/// A string as serde_json writes it: its characters escaped, in quotes.
pub open spec fn json_string(s: Seq<char>) -> Seq<char> {
    seq!['"'] + s.map_values(|c: char| json_char(c)).flatten() + seq!['"']
}

/// The JSON text serde_json writes for an array of strings: the strings
/// in brackets, separated by commas, with no spaces.
pub open spec fn json_array_text(items: Seq<Seq<char>>) -> Seq<char> {
    seq!['['] + join(items.map_values(|s: Seq<char>| json_string(s)), seq![',']) + seq![']']
}

/// The array of strings serde_json reads from a JSON text, where the text
/// is a JSON array of strings.
pub uninterp spec fn json_array_parse(text: Seq<char>) -> Option<Seq<Seq<char>>>;

/// `serde_json::to_string` on a `Vec<String>`: the text is
/// `json_array_text` of the strings (the compact formatter, with the
/// escape table of `ser.rs`), and `serde_json::from_str`
/// reads the same strings back from it (strings are written with every
/// quote, backslash and control character escaped, and reading undoes the
/// escapes). Nothing is stated of when it fails.
#[verifier::external_body]
fn json_to_string(items: &Vec<String>) -> (r: Result<String, serde_json::Error>)
    ensures
        r matches Ok(s) ==> s@ == json_array_text(views(items@)),
        r matches Ok(s) ==> json_array_parse(s@) == Some(views(items@)),
{
    serde_json::to_string(items)
}

/// `serde_json::from_str::<Vec<String>>`: succeeds exactly when the text
/// is one that `json_array_parse` reads, and then gives those strings.
#[verifier::external_body]
fn json_from_str(text: &str) -> (r: Result<Vec<String>, serde_json::Error>)
    ensures
        r is Ok <==> json_array_parse(text@) is Some,
        r matches Ok(v) ==> views(v@) == json_array_parse(text@)->0,
{
    serde_json::from_str(text)
}

/// The `Display` text of a `serde_json::Error`. Nothing is stated of it.
#[verifier::external_body]
fn json_error_message(e: &serde_json::Error) -> (r: String) {
    e.to_string()
}

/// The tags as the JSON array stored beside a record; reading that text
/// back with `tags_from_json` gives the same tags.
pub fn tags_to_json(tags: &Vec<String>) -> (r: Result<String, CtxError>)
    ensures
        r matches Ok(s) ==> s@ == json_array_text(views(tags@)),
        r matches Ok(s) ==> json_array_parse(s@) == Some(views(tags@)),
        r matches Err(e) ==> e is Json,
{
    match json_to_string(tags) {
        Ok(s) => Ok(s),
        Err(e) => Err(CtxError::Json(json_error_message(&e))),
    }
}

/// The tags read back from the JSON array stored beside a record.
pub fn tags_from_json(text: &str) -> (r: Result<Vec<String>, CtxError>)
    ensures
        r is Ok <==> json_array_parse(text@) is Some,
        r matches Ok(v) ==> views(v@) == json_array_parse(text@)->0,
        r matches Err(e) ==> e is Json,
{
    match json_from_str(text) {
        Ok(v) => Ok(v),
        Err(e) => Err(CtxError::Json(json_error_message(&e))),
    }
}

} // verus!
