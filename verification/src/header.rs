//! Request headers: the value found under a name, and its reading as text.

use vstd::prelude::*;

verus! {

#[verifier::external_type_specification]
#[verifier::external_body]
#[verifier::reject_recursive_types(T)]
pub struct ExHeaderMap<T>(axum::http::HeaderMap<T>);

// A header map is a map of header values by default, so every signature that
// names the map names this type too, and Verus asks to know it. No function
// here takes or returns one.
#[verifier::external_type_specification]
#[verifier::external_body]
pub struct ExHeaderValue(axum::http::HeaderValue);

/// What a header map holds, as `get` shows it: under each name that it
/// finds, the bytes of the first value stored for that name.
pub uninterp spec fn first_values(map: axum::http::HeaderMap) -> Map<Seq<char>, Seq<u8>>;

/// Calls `get` on an `http::HeaderMap` with a name given as text, and copies
/// the bytes of the value it finds. The contract says that this is the first
/// value under the name, and that `None` means the map has none.
#[verifier::external_body]
pub(crate) fn first_value(map: &axum::http::HeaderMap, name: &str) -> (r: Option<Vec<u8>>)
    ensures
        match r {
            Some(bytes) => first_values(*map).contains_key(name@) && first_values(*map)[name@]
                == bytes@,
            None => !first_values(*map).contains_key(name@),
        },
{
    map.get(name).map(|value| value.as_bytes().to_vec())
}

/// Calls `String::from_utf8`. The contract claims only what holds of ASCII:
/// such bytes are valid, and each becomes the character with its code.
#[verifier::external_body]
pub(crate) fn utf8_string(bytes: Vec<u8>) -> (r: Option<String>)
    ensures
        all_ascii(bytes@) ==> r is Some && r->Some_0@ == text_of(bytes@),
{
    String::from_utf8(bytes).ok()
}

/// True when every byte is an ASCII code.
pub open spec fn all_ascii(bytes: Seq<u8>) -> bool {
    forall|i: int| 0 <= i < bytes.len() ==> #[trigger] bytes[i] < 128
}

/// True of the bytes that may stand in a header value read as text: the
/// visible ASCII characters, the space and the tab.
pub open spec fn visible_ascii(b: u8) -> bool {
    b == 9 || (32 <= b && b < 127)
}

/// True when every byte of a value is visible ASCII.
pub open spec fn is_text(bytes: Seq<u8>) -> bool {
    forall|i: int| 0 <= i < bytes.len() ==> visible_ascii(#[trigger] bytes[i])
}

/// The characters of an ASCII value.
pub open spec fn text_of(bytes: Seq<u8>) -> Seq<char> {
    Seq::new(bytes.len(), |i: int| bytes[i] as char)
}

/// Reads a header value as text: the value's characters where all of its
/// bytes are visible ASCII, nothing otherwise.
pub fn header_text(bytes: Vec<u8>) -> (r: Option<String>)
    ensures
        is_text(bytes@) ==> r is Some && r->Some_0@ == text_of(bytes@),
        !is_text(bytes@) ==> r is None,
{
    let mut i: usize = 0;
    while i < bytes.len()
        invariant
            i <= bytes.len(),
            forall|k: int| 0 <= k < i ==> visible_ascii(#[trigger] bytes@[k]),
        decreases bytes.len() - i,
    {
        let b = bytes[i];
        if !(b == 9 || (32 <= b && b < 127)) {
            return None;
        }
        i += 1;
    }
    utf8_string(bytes)
}

} // verus!
