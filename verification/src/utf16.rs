//! Text as the window manager hands it over: UTF-16 code units.

use vstd::prelude::*;
use vstd::slice::slice_to_vec;

verus! {

/// The text that a run of UTF-16 code units decodes to when every code unit
/// that is no part of a well-formed pair is replaced by U+FFFD.
///
/// This is the result of std's `String::from_utf16_lossy`; the library does
/// not restate the decoding, it only names what comes out.
pub uninterp spec fn utf16_lossy(units: Seq<u16>) -> Seq<char>;

/// Decodes UTF-16 code units to a `String`, replacing what is ill-formed.
///
/// Calls std's `String::from_utf16_lossy` and is believed, not proved: the
/// text is the one that [`utf16_lossy`] names, and it is empty exactly when
/// there are no code units (each unit decodes to a character, alone, as half
/// of a pair, or as the replacement character).
#[verifier::external_body]
pub(crate) fn decode_lossy(units: &[u16]) -> (text: String)
    ensures
        text@ == utf16_lossy(units@),
        text@.len() == 0 <==> units@.len() == 0,
{
    String::from_utf16_lossy(units)
}

/// A copy of a run of code units.
pub(crate) fn copy_of(units: &Vec<u16>) -> (copy: Vec<u16>)
    ensures
        copy@ == units@,
{
    slice_to_vec(units.as_slice())
}

} // verus!
