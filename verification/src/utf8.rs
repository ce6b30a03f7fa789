use vstd::prelude::*;
use vstd::utf8::*;

verus! {

/// The text that `String::from_utf8_lossy` makes of `bytes`: each invalid
/// UTF-8 sequence is replaced by U+FFFD.
pub uninterp spec fn utf8_lossy(bytes: Seq<u8>) -> Seq<char>;

/// Calls `std::str::from_utf8` and tells whether it accepted `bytes`.
/// Claimed: it accepts exactly the valid UTF-8 encodings, as its
/// documentation says ("Returns `Err` if the slice is not UTF-8").
#[verifier::external_body]
pub(crate) fn is_valid_utf8(bytes: &[u8]) -> (b: bool)
    ensures
        b == valid_utf8(bytes@),
{
    std::str::from_utf8(bytes).is_ok()
}

/// Calls `String::from_utf8_lossy` and takes the result as an owned `String`.
/// Claimed: the text is `utf8_lossy` of the bytes, and, as the documentation
/// says, valid UTF-8 comes back decoded unchanged. What replaces an invalid
/// sequence is left to the name.
#[verifier::external_body]
pub(crate) fn decode_lossy(bytes: &[u8]) -> (s: String)
    ensures
        s@ == utf8_lossy(bytes@),
        valid_utf8(bytes@) ==> s@ == decode_utf8(bytes@),
{
    String::from_utf8_lossy(bytes).into_owned()
}

} // verus!
