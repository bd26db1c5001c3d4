//! Small verified helpers on text.

use vstd::prelude::*;
use vstd::string::StrSliceExecFns;
use vstd::string::StringSliceAdditionalSpecFns;
use vstd::utf8::encode_utf8_decode_utf8;

use crate::codec::bytes_eq;

verus! {

/// Whether two string slices hold the same characters. Equal byte
/// encodings mean equal character sequences, since UTF-8 decoding
/// inverts encoding.
pub fn str_eq(a: &str, b: &str) -> (r: bool)
    ensures
        r == (a@ == b@),
{
    let va = a.as_bytes_vec();
    let vb = b.as_bytes_vec();
    let r = bytes_eq(&va, &vb);
    proof {
        if a.spec_bytes() == b.spec_bytes() {
            encode_utf8_decode_utf8(a@);
            encode_utf8_decode_utf8(b@);
            assert(a@ == b@);
        }
    }
    r
}

} // verus!
