//! Text building blocks: concatenation, UTF-8 decoding, JSON string encoding.

use vstd::prelude::*;

verus! {

/// The error type of `serde_json`, carried as the failure of an encoding.
#[verifier::external_type_specification]
#[verifier::external_body]
pub struct ExJsonError(serde_json::Error);

/// What `serde_json` writes for a string value: the quoted, escaped text.
pub uninterp spec fn json_str_of(s: Seq<char>) -> Seq<char>;

/// What UTF-8 decoding gives for a byte sequence, `None` where it is not
/// valid UTF-8.
pub uninterp spec fn utf8_text_of(b: Seq<u8>) -> Option<Seq<char>>;

/// The characters that stand for ASCII bytes, one for one.
pub open spec fn ascii_chars(b: Seq<u8>) -> Seq<char> {
    b.map_values(|x: u8| x as char)
}

/// Relies on `String::push_str`: appends `t` at the end of `s`.
#[verifier::external_body]
pub(crate) fn append(s: &mut String, t: &str)
    ensures
        final(s)@ == old(s)@ + t@,
{
    s.push_str(t)
}

/// Every byte stands for an ASCII character.
pub open spec fn is_ascii_bytes(b: Seq<u8>) -> bool {
    forall|i: int| 0 <= i < b.len() ==> #[trigger] b[i] < 128
}

/// The text an optional string holds.
pub open spec fn text_of(r: Option<String>) -> Option<Seq<char>> {
    match r {
        Some(s) => Some(s@),
        None => None,
    }
}

/// Relies on `String::from_utf8`: the bytes decoded when they are valid
/// UTF-8; UTF-8 encodes each ASCII character as its own byte.
#[verifier::external_body]
pub(crate) fn decode_utf8(b: Vec<u8>) -> (r: Option<String>)
    ensures
        text_of(r) == utf8_text_of(b@),
        is_ascii_bytes(b@) ==> text_of(r) == Some(ascii_chars(b@)),
{
    String::from_utf8(b).ok()
}

/// Relies on `serde_json::to_string` applied to a string slice: the JSON
/// string literal for `s`.
#[verifier::external_body]
pub(crate) fn encode_json_str(s: &str) -> (r: Result<String, serde_json::Error>)
    ensures
        r matches Ok(t) ==> t@ == json_str_of(s@),
{
    serde_json::to_string(s)
}

/// A copy of `s` as an owned string.
pub fn owned(s: &str) -> (r: String)
    ensures
        r@ == s@,
{
    s.to_owned()
}

/// The concatenation of `a` and `b`.
pub fn concatenate(a: &str, b: &str) -> (r: String)
    ensures
        r@ == a@ + b@,
{
    let mut r = a.to_owned();
    append(&mut r, b);
    r
}

} // verus!
