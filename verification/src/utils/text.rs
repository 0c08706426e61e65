//! The text of an optional description, as it stands in an error's message.

use vstd::prelude::*;

verus! {

/// An optional text by its view.
pub open spec fn option_text(info: Option<String>) -> Option<Seq<char>> {
    match info {
        Some(text) => Some(text@),
        None => None,
    }
}

/// A borrowed text that may be missing, by its view.
pub open spec fn optional_view(text: Option<&str>) -> Option<Seq<char>> {
    match text {
        Some(t) => Some(t@),
        None => None,
    }
}

/// What std's `Debug` writes for an optional text: `None`, or `Some(..)`
/// around the text in quotes, with the escapes of a string literal.
pub uninterp spec fn debug_text(info: Option<Seq<char>>) -> Seq<char>;

/// Writes `info` with `format!("{:?}", ..)`, that is with std's `Debug` for
/// `Option<String>`.
///
/// Believed, not proved: what is written depends on what `info` reads alone.
#[verifier::external_body]
pub(crate) fn debug_format(info: &Option<String>) -> (r: String)
    ensures
        r@ == debug_text(option_text(*info)),
{
    format!("{:?}", info)
}

} // verus!
