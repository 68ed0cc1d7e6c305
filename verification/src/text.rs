//! Small operations on text that the other modules share.

use vstd::prelude::*;
use vstd::string::*;

verus! {

/// The characters of each text of a list.
pub open spec fn texts_of(list: Seq<String>) -> Seq<Seq<char>> {
    list.map_values(|text: String| text@)
}

/// Whether an outcome is the expected one: a success of the expected value,
/// or a failure of the expected error.
pub open spec fn agrees<T: View, E: View>(outcome: Result<T, E>, expected: Result<T::V, E::V>) -> bool {
    match outcome {
        Ok(value) => expected == Ok::<T::V, E::V>(value@),
        Err(error) => expected == Err::<T::V, E::V>(error@),
    }
}

/// Whether two string slices hold the same characters.
///
/// Calls `str`'s `==` from the standard library, which compares the two
/// slices character by character.
#[verifier::external_body]
pub(crate) fn same_text(left: &str, right: &str) -> (same: bool)
    ensures
        same == (left@ == right@),
{
    left == right
}

/// What the standard library's `String::from_utf8_lossy` makes of bytes:
/// the text that they encode, with a replacement character in the place of
/// whatever is not valid UTF-8.
pub uninterp spec fn utf8_lossy(bytes: Seq<u8>) -> Seq<char>;

/// Reads bytes as text.
///
/// Calls `String::from_utf8_lossy` of the standard library. The contract
/// gives its result its name, `utf8_lossy`, and claims nothing else of it.
#[verifier::external_body]
pub(crate) fn decode_lossy(bytes: &[u8]) -> (text: String)
    ensures
        text@ == utf8_lossy(bytes@),
{
    String::from_utf8_lossy(bytes).into_owned()
}

/// `head` followed by `tail`.
pub(crate) fn joined(head: &str, tail: &str) -> (text: String)
    ensures
        text@ == head@ + tail@,
{
    head.to_owned().concat(tail)
}

/// `head`, then `middle`, then `tail`.
pub(crate) fn joined3(head: &str, middle: &str, tail: &str) -> (text: String)
    ensures
        text@ == head@ + middle@ + tail@,
{
    head.to_owned().concat(middle).concat(tail)
}

} // verus!
