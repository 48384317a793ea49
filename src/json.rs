//! The JSON encoding and decoding that the progress protocol relies on, done by
//! `serde_json`.

use std::collections::HashMap;
use vstd::prelude::*;

verus! {

/// A lower-case hex digit.
pub open spec fn hex_digit(n: int) -> char {
    "0123456789abcdef"@[n]
}

/// How a character is written inside a JSON string: the quote, the backslash
/// and the control characters are escaped, the short forms where JSON has
/// them and `\u00XX` otherwise; every other character stands for itself.
pub open spec fn escaped(c: char) -> Seq<char> {
    if c == '"' {
        seq!['\\', '"']
    } else if c == '\\' {
        seq!['\\', '\\']
    } else if c == '\u{8}' {
        seq!['\\', 'b']
    } else if c == '\t' {
        seq!['\\', 't']
    } else if c == '\n' {
        seq!['\\', 'n']
    } else if c == '\u{c}' {
        seq!['\\', 'f']
    } else if c == '\r' {
        seq!['\\', 'r']
    } else if (c as u32) < 0x20 {
        seq!['\\', 'u', '0', '0', hex_digit((c as u32) as int / 16), hex_digit((c as u32) as int % 16)]
    } else {
        seq![c]
    }
}

/// The characters of `s`, each written as inside a JSON string.
pub open spec fn escaped_all(s: Seq<char>) -> Seq<char>
    decreases s.len(),
{
    if s.len() == 0 {
        Seq::empty()
    } else {
        escaped_all(s.drop_last()) + escaped(s.last())
    }
}

/// The JSON text of the string `s`: the escaped characters between quotes.
pub open spec fn json_text(s: Seq<char>) -> Seq<char> {
    seq!['"'] + escaped_all(s) + seq!['"']
}

/// The string that the JSON text `d` holds, if `d` is a JSON string.
pub uninterp spec fn json_string_value(d: Seq<char>) -> Option<Seq<char>>;

/// The member `k` of the JSON text `d`, if `d` is an object whose members all
/// hold strings and one of them is named `k`.
pub uninterp spec fn json_member(d: Seq<char>, k: Seq<char>) -> Option<Seq<char>>;

/// Relies on `serde_json::Value`'s `Display`: a string value is written
/// compactly as its quoted literal, escaped by serde_json's escape table.
#[verifier::external_body]
pub(crate) fn quote(s: &str) -> (r: String)
    ensures
        r@ == json_text(s@),
{
    serde_json::Value::from(s).to_string()
}

/// Relies on `serde_json::from_str::<String>`: reads a JSON string literal.
#[verifier::external_body]
pub(crate) fn read_string(d: &str) -> (r: Option<String>)
    ensures
        match r {
            Some(v) => json_string_value(d@) == Some(v@),
            None => json_string_value(d@) is None,
        },
{
    serde_json::from_str::<String>(d).ok()
}

/// Relies on `serde_json::from_str::<HashMap<String, String>>`: reads a JSON
/// object of strings, of which the member `k` is taken.
#[verifier::external_body]
pub(crate) fn read_member(d: &str, k: &str) -> (r: Option<String>)
    ensures
        match r {
            Some(v) => json_member(d@, k@) == Some(v@),
            None => json_member(d@, k@) is None,
        },
{
    match serde_json::from_str::<HashMap<String, String>>(d) {
        Ok(mut members) => members.remove(k),
        Err(_) => None,
    }
}

} // verus!
