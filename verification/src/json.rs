//! JSON text: string quoting through `serde_json`, and lookups in JSON
//! documents.
use vstd::prelude::*;

verus! {

/// The lowercase hexadecimal digit of `d`.
pub open spec fn hex_digit(d: int) -> char {
    if d < 10 {
        (48 + d) as char
    } else {
        (87 + d) as char
    }
}

/// How `serde_json` writes one character inside a JSON string.
pub open spec fn json_escape_char(c: char) -> Seq<char> {
    let u = c as u32;
    if c == '"' {
        seq!['\\', '"']
    } else if c == '\\' {
        seq!['\\', '\\']
    } else if u == 0x08 {
        seq!['\\', 'b']
    } else if u == 0x09 {
        seq!['\\', 't']
    } else if u == 0x0a {
        seq!['\\', 'n']
    } else if u == 0x0c {
        seq!['\\', 'f']
    } else if u == 0x0d {
        seq!['\\', 'r']
    } else if u < 0x20 {
        seq!['\\', 'u', '0', '0', hex_digit((u / 16) as int), hex_digit((u % 16) as int)]
    } else {
        seq![c]
    }
}

/// The escaped characters of a JSON string body.
pub open spec fn json_escape(s: Seq<char>) -> Seq<char>
    decreases s.len(),
{
    if s.len() == 0 {
        Seq::empty()
    } else {
        json_escape(s.drop_last()) + json_escape_char(s.last())
    }
}

/// A string written as a JSON string literal.
pub open spec fn json_quote(s: Seq<char>) -> Seq<char> {
    seq!['"'] + json_escape(s) + seq!['"']
}

/// `serde_json::to_string` of a string slice. The contract states what the
/// crate's serializer writes for a string: the quoted text with `"` and `\`
/// escaped, `\b \t \n \f \r` for those controls and `\u00xx` (lowercase hex)
/// for the other characters below U+0020; writing a string slice cannot fail.
#[verifier::external_body]
pub(crate) fn json_string(s: &str) -> (r: String)
    ensures
        r@ == json_quote(s@),
{
    match serde_json::to_string(s) {
        Ok(t) => t,
        Err(_) => String::new(),
    }
}

// ---------------------------------------------------------------------------
// Reading JSON documents
// ---------------------------------------------------------------------------
//
// A document is read through `serde_json` one step at a time: each step
// parses a JSON text into a `serde_json::Value` and gives back part of it,
// a member or an element as JSON text again (as `Value`'s `Display` writes
// it), or a string, integer or boolean.

/// What `serde_json::from_str::<Value>(text)`, then `.get(key)`, then
/// `.to_string()` gives: the JSON text of member `key` of an object; `None`
/// where the text does not parse, is no object or has no such member.
pub uninterp spec fn json_member_text(text: Seq<char>, key: Seq<char>) -> Option<Seq<char>>;

/// What `serde_json::from_str::<Value>(text)`, then `.get(index)`, then
/// `.to_string()` gives: the JSON text of element `index` of an array.
pub uninterp spec fn json_element_text(text: Seq<char>, index: int) -> Option<Seq<char>>;

/// What `serde_json::from_str::<Value>(text)` then `.as_array()` gives, by
/// its length: the number of elements of an array.
pub uninterp spec fn json_array_len(text: Seq<char>) -> Option<nat>;

/// What `serde_json::from_str::<Value>(text)` then `.as_str()` gives: the
/// text of a JSON string.
pub uninterp spec fn json_str_value(text: Seq<char>) -> Option<Seq<char>>;

/// What `serde_json::from_str::<Value>(text)` then `.as_i64()` gives: a
/// JSON number that is an integer in the range of `i64`.
pub uninterp spec fn json_i64_value(text: Seq<char>) -> Option<i64>;

/// What `serde_json::from_str::<Value>(text)` then `.as_bool()` gives.
pub uninterp spec fn json_bool_value(text: Seq<char>) -> Option<bool>;

/// What `serde_json::from_str::<Value>(text)` then `.is_null()` gives;
/// false where the text does not parse.
pub uninterp spec fn json_null_value(text: Seq<char>) -> bool;

/// The view of an optional string.
pub open spec fn opt_seq(o: Option<String>) -> Option<Seq<char>> {
    match o {
        Some(s) => Some(s@),
        None => None,
    }
}

/// Member `key` of a JSON object, as JSON text.
#[verifier::external_body]
pub(crate) fn json_member(text: &str, key: &str) -> (r: Option<String>)
    ensures
        opt_seq(r) == json_member_text(text@, key@),
{
    match serde_json::from_str::<serde_json::Value>(text) {
        Ok(value) => match value.get(key) {
            Some(member) => Some(member.to_string()),
            None => None,
        },
        Err(_) => None,
    }
}

/// Element `index` of a JSON array, as JSON text.
#[verifier::external_body]
pub(crate) fn json_element(text: &str, index: usize) -> (r: Option<String>)
    ensures
        opt_seq(r) == json_element_text(text@, index as int),
{
    match serde_json::from_str::<serde_json::Value>(text) {
        Ok(value) => match value.get(index) {
            Some(element) => Some(element.to_string()),
            None => None,
        },
        Err(_) => None,
    }
}

/// The number of elements of a JSON array.
#[verifier::external_body]
pub(crate) fn json_len(text: &str) -> (r: Option<usize>)
    ensures
        r matches Some(n) ==> json_array_len(text@) == Some(n as nat),
        r is None ==> json_array_len(text@) is None,
{
    match serde_json::from_str::<serde_json::Value>(text) {
        Ok(value) => match value.as_array() {
            Some(items) => Some(items.len()),
            None => None,
        },
        Err(_) => None,
    }
}

/// The text of a JSON string.
#[verifier::external_body]
pub(crate) fn json_as_str(text: &str) -> (r: Option<String>)
    ensures
        opt_seq(r) == json_str_value(text@),
{
    match serde_json::from_str::<serde_json::Value>(text) {
        Ok(value) => match value.as_str() {
            Some(s) => Some(s.to_string()),
            None => None,
        },
        Err(_) => None,
    }
}

/// A JSON integer that fits in an `i64`.
#[verifier::external_body]
pub(crate) fn json_as_i64(text: &str) -> (r: Option<i64>)
    ensures
        r == json_i64_value(text@),
{
    match serde_json::from_str::<serde_json::Value>(text) {
        Ok(value) => value.as_i64(),
        Err(_) => None,
    }
}

/// A JSON boolean.
#[verifier::external_body]
pub(crate) fn json_as_bool(text: &str) -> (r: Option<bool>)
    ensures
        r == json_bool_value(text@),
{
    match serde_json::from_str::<serde_json::Value>(text) {
        Ok(value) => value.as_bool(),
        Err(_) => None,
    }
}

/// Whether the text is JSON `null`.
#[verifier::external_body]
pub(crate) fn json_is_null(text: &str) -> (r: bool)
    ensures
        r == json_null_value(text@),
{
    match serde_json::from_str::<serde_json::Value>(text) {
        Ok(value) => value.is_null(),
        Err(_) => false,
    }
}

/// The JSON text found by following the object keys of `path`.
pub open spec fn json_at(text: Seq<char>, path: Seq<Seq<char>>) -> Option<Seq<char>>
    decreases path.len(),
{
    if path.len() == 0 {
        Some(text)
    } else {
        match json_member_text(text, path[0]) {
            None => None,
            Some(t) => json_at(t, path.drop_first()),
        }
    }
}

/// The string found by following the object keys of `path`.
pub open spec fn json_str_path(text: Seq<char>, path: Seq<Seq<char>>) -> Option<Seq<char>> {
    match json_at(text, path) {
        Some(t) => json_str_value(t),
        None => None,
    }
}

/// The JSON text found by following the object keys of `path`.
pub fn json_at_path(text: &str, path: &[&str]) -> (r: Option<String>)
    ensures
        opt_seq(r) == json_at(text@, str_views(path@)),
{
    let ghost p = str_views(path@);
    let mut cur = String::from_str(text);
    let mut i: usize = 0;
    assert(p.skip(0) == p);
    while i < path.len()
        invariant
            i <= path.len(),
            p == str_views(path@),
            json_at(text@, p) == json_at(cur@, p.skip(i as int)),
        decreases path.len() - i,
    {
        assert(p.skip(i as int)[0] == path@[i as int]@);
        assert(p.skip(i as int).drop_first() == p.skip(i + 1));
        match json_member(cur.as_str(), path[i]) {
            None => return None,
            Some(t) => {
                cur = t;
            },
        }
        i += 1;
    }
    Some(cur)
}

/// The views of string slices.
pub open spec fn str_views(v: Seq<&str>) -> Seq<Seq<char>> {
    v.map_values(|s: &str| s@)
}

/// The string found by following the object keys of `path`.
pub fn json_str_at(text: &str, path: &[&str]) -> (r: Option<String>)
    ensures
        opt_seq(r) == json_str_path(text@, str_views(path@)),
{
    match json_at_path(text, path) {
        None => None,
        Some(t) => json_as_str(t.as_str()),
    }
}

} // verus!
