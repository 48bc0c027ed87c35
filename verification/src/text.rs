//! Normalisation of names on write.

use vstd::prelude::*;

verus! {

/// The lower-case form that `str::to_lowercase` gives a text.
pub uninterp spec fn lowercased(text: Seq<char>) -> Seq<char>;

/// Calls `str::to_lowercase`. The result depends on the text alone; the
/// contract names it and claims nothing else.
#[verifier::external_body]
pub(crate) fn to_lower(text: &str) -> (r: String)
    ensures
        r@ == lowercased(text@),
{
    text.to_lowercase()
}

/// A name as it is stored: in lower case.
pub fn normalize_name(name: &str) -> (r: String)
    ensures
        r@ == lowercased(name@),
{
    to_lower(name)
}

} // verus!
