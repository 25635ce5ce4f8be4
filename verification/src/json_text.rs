//! JSON texts of strings and string lists, as `serde_json` writes and reads them.
use crate::text;
use vstd::prelude::*;

verus! {

#[verifier::external_type_specification]
#[verifier::external_body]
pub struct ExJsonError(serde_json::Error);

/// The lowercase hexadecimal digit of `d` (below 16).
pub open spec fn hex_digit(d: int) -> char {
    if d < 10 {
        (('0' as int) + d) as char
    } else {
        (('a' as int) + d - 10) as char
    }
}

/// How `serde_json` writes one character inside a string: the quote and the
/// backslash behind a backslash, the five controls that have a short escape
/// by it, the other controls below `0x20` as `\u00` and two hex digits, every
/// other character as it is.
pub open spec fn json_char_text(c: char) -> Seq<char> {
    if c == '"' {
        seq!['\\', '"']
    } else if c == '\\' {
        seq!['\\', '\\']
    } else if c == '\x08' {
        seq!['\\', 'b']
    } else if c == '\t' {
        seq!['\\', 't']
    } else if c == '\n' {
        seq!['\\', 'n']
    } else if c == '\x0c' {
        seq!['\\', 'f']
    } else if c == '\r' {
        seq!['\\', 'r']
    } else if (c as int) < 0x20 {
        seq!['\\', 'u', '0', '0', hex_digit((c as int) / 16), hex_digit((c as int) % 16)]
    } else {
        seq![c]
    }
}

/// The characters of `s`, each written as `json_char_text` writes it.
pub open spec fn json_escaped(s: Seq<char>) -> Seq<char>
    decreases s.len(),
{
    if s.len() == 0 {
        Seq::empty()
    } else {
        json_escaped(s.drop_last()) + json_char_text(s.last())
    }
}

/// The JSON text that `serde_json` writes for a string: its escaped
/// characters between quotes.
pub open spec fn json_string_text(s: Seq<char>) -> Seq<char> {
    seq!['"'] + json_escaped(s) + seq!['"']
}

/// The JSON texts of `items`, each after a comma but the first.
pub open spec fn json_joined(items: Seq<Seq<char>>) -> Seq<char>
    decreases items.len(),
{
    if items.len() == 0 {
        Seq::empty()
    } else if items.len() == 1 {
        json_string_text(items[0])
    } else {
        json_joined(items.drop_last()) + seq![','] + json_string_text(items.last())
    }
}

/// The JSON text that `serde_json` writes for a list of strings: the strings'
/// texts, separated by commas, between square brackets, with no spaces.
pub open spec fn json_string_list_text(items: Seq<Seq<char>>) -> Seq<char> {
    seq!['['] + json_joined(items) + seq![']']
}

/// The list of strings that `serde_json` reads from a text, if it reads one.
pub uninterp spec fn json_string_list_of(text: Seq<char>) -> Option<Seq<Seq<char>>>;

/// `serde_json::to_string(items)`: the text `json_string_list_text`
/// describes (an empty list is `[]`), written by the compact formatter
/// (`format_escaped_str` and the array writers). It succeeds: `serde_json`
/// documents failure only for a `Serialize` impl that decides to fail or a map
/// with non-string keys, and it writes into a `Vec`, which takes every write.
/// `serde_json::from_str` reads that text back as the same list, since every
/// escape it writes is one the reader undoes.
#[verifier::external_body]
pub(crate) fn encode_string_list(items: &Vec<String>) -> (r: Result<String, serde_json::Error>)
    ensures
        r is Ok,
        r matches Ok(t) ==> json_string_list_of(t@) == Some(text::texts(items@)),
        r matches Ok(t) ==> t@ == json_string_list_text(text::texts(items@)),
{
    serde_json::to_string(items)
}

/// `serde_json::from_str::<Vec<String>>(s)`: succeeds exactly when the named
/// reading is defined, and gives that list.
#[verifier::external_body]
pub(crate) fn decode_string_list(s: &str) -> (r: Result<Vec<String>, serde_json::Error>)
    ensures
        match r {
            Ok(v) => json_string_list_of(s@) == Some(text::texts(v@)),
            Err(_) => json_string_list_of(s@) is None,
        },
{
    serde_json::from_str::<Vec<String>>(s)
}

} // verus!
