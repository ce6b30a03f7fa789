use vstd::prelude::*;
use vstd::utf8::*;
use crate::utf8::{decode_lossy, utf8_lossy};

verus! {

/// Turns a string that Poppler handed back into an owned Rust string.
///
/// `bytes` is what C holds before the terminating NUL, or `None` where
/// Poppler returned a null pointer. Invalid UTF-8 is replaced, never refused.
pub fn take_c_owned_string(bytes: Option<&[u8]>) -> (r: Option<String>)
    ensures
        bytes is None <==> r is None,
        bytes matches Some(b) ==> r->Some_0@ == utf8_lossy(b@),
        bytes matches Some(b) ==> (valid_utf8(b@) ==> r->Some_0@ == decode_utf8(b@)),
{
    match bytes {
        None => None,
        Some(b) => Some(decode_lossy(b)),
    }
}

} // verus!
