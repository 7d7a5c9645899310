//! Strings as sequences of characters.
use vstd::prelude::*;

verus! {

/// The characters of an optional string.
pub open spec fn text_of(text: Option<String>) -> Option<Seq<char>> {
    match text {
        Some(text) => Some(text@),
        None => None,
    }
}

/// The characters of each string.
pub open spec fn texts(strings: Seq<String>) -> Seq<Seq<char>> {
    strings.map_values(|s: String| s@)
}

/// A string slice of an optional string.
pub(crate) fn as_deref(text: &Option<String>) -> (slice: Option<&str>)
    ensures
        text_of(*text) == match slice {
            Some(slice) => Some(slice@),
            None => None,
        },
{
    match text {
        Some(text) => Some(text.as_str()),
        None => None,
    }
}

} // verus!
