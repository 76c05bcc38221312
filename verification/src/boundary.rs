//! The character-boundary collaborator.
//!
//! Boundary detection over the UTF-8 encoding is delegated to
//! `char_ranges::CharRanges`, a fused iterator that yields each character of a
//! text together with the half-open byte range it occupies. This module
//! declares that type to the verifier and wraps the three calls the tracker
//! makes. The iterator's state is described by two names: [`cr_rest`], the
//! characters it has not yielded yet, and [`cr_offset`], the byte offset in
//! the original text at which they begin.

use vstd::prelude::*;
use char_ranges::CharRanges;
use char_ranges::CharRangesExt;
use crate::model::byte_len;
use crate::model::utf8_len;

verus! {

/// Declares `char_ranges::CharRanges` to the verifier; values of it are
/// opaque and are described only through [`cr_rest`] and [`cr_offset`].
#[verifier::external_type_specification]
#[verifier::external_body]
pub struct ExCharRanges<'a>(CharRanges<'a>);

/// The characters a boundary iterator has not yielded yet, in text order.
pub uninterp spec fn cr_rest(it: CharRanges) -> Seq<char>;

/// The byte offset in the original text at which the unyielded characters
/// begin; equally, the end of the last yielded byte range, or 0 at the start.
pub uninterp spec fn cr_offset(it: CharRanges) -> usize;

/// Relies on `char_ranges::CharRangesExt::char_ranges` (`CharRanges::new`):
/// the returned iterator stands at the beginning of the text and will yield
/// every character of it; and on Rust's guarantee that a `str` is at most
/// `isize::MAX` bytes long, so the text's byte length is below `usize::MAX`.
#[verifier::external_body]
pub(crate) fn boundary_start<'a>(s: &'a str) -> (it: CharRanges<'a>)
    ensures
        cr_rest(it) == s@,
        cr_offset(it) == 0,
        cr_offset(it) + byte_len(cr_rest(it)) < usize::MAX,
{
    s.char_ranges()
}

/// Relies on `char_ranges::CharRanges::next`: it yields the next character
/// together with the byte range the character's UTF-8 encoding occupies in
/// the original text, ranges being contiguous; and the iterator is fused, so
/// once exhausted it keeps yielding nothing.
#[verifier::external_body]
pub(crate) fn boundary_next<'a>(it: &mut CharRanges<'a>) -> (r: Option<(usize, usize, char)>)
    ensures
        cr_rest(*old(it)).len() == 0 ==> {
            &&& r is None
            &&& cr_rest(*final(it)) == cr_rest(*old(it))
            &&& cr_offset(*final(it)) == cr_offset(*old(it))
        },
        cr_rest(*old(it)).len() > 0 ==> {
            let c = cr_rest(*old(it))[0];
            &&& r == Some(
                (
                    cr_offset(*old(it)),
                    (cr_offset(*old(it)) + utf8_len(c)) as usize,
                    c,
                ),
            )
            &&& cr_rest(*final(it)) == cr_rest(*old(it)).drop_first()
            &&& cr_offset(*final(it)) == cr_offset(*old(it)) + utf8_len(c)
        },
{
    it.next().map(|(r, c)| (r.start, r.end, c))
}

/// Relies on `char_ranges::CharRanges::as_str`: it returns the not yet
/// iterated substring of the original text.
#[verifier::external_body]
pub(crate) fn boundary_rest<'a>(it: &CharRanges<'a>) -> (s: &'a str)
    ensures
        s@ == cr_rest(*it),
{
    it.as_str()
}

} // verus!
