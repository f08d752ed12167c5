//! Shared text measurement: question and label lengths are bounded in UTF-8
//! bytes, matching how the records store them.

use vstd::prelude::*;

verus! {

/// The UTF-8 byte length of a string value.
pub open spec fn byte_len(s: Seq<char>) -> int {
    vstd::utf8::encode_utf8(s).len() as int
}

/// The byte length of a string slice.
pub fn str_byte_len(s: &str) -> (n: usize)
    ensures
        n == byte_len(s@),
{
    s.as_bytes().len()
}

} // verus!
