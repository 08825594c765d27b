//! Quoting a string the way `{:?}` prints it.

use vstd::prelude::*;

verus! {

/// The text that `{:?}` prints for a string: the string between double
/// quotes, with the characters that cannot stand there written as escapes.
pub uninterp spec fn debug_quoted(text: Seq<char>) -> Seq<char>;

/// Formats `text` with `{:?}`, the `Debug` form of `str`. Nothing is proved
/// of the result: it is whatever that formatting yields, under the name
/// `debug_quoted`.
#[verifier::external_body]
pub(crate) fn debug_quote(text: &str) -> (quoted: String)
    ensures
        quoted@ == debug_quoted(text@),
{
    format!("{:?}", text)
}

} // verus!
