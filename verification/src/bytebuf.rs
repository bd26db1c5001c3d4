//! Opaque shared byte buffers from the `bytes` crate.
//!
//! Topics and payloads travel through the adapter as `bytes::Bytes`
//! handles, exactly as callers hand them in. The buffer type is opaque to
//! the verifier; `bytes_content` names the byte sequence a handle holds,
//! and the wrappers below state how each library call relates to it.

use vstd::prelude::*;

verus! {

#[verifier::external_type_specification]
#[verifier::external_body]
pub struct ExBytes(bytes::Bytes);

/// The sequence of bytes a `bytes::Bytes` handle holds.
pub uninterp spec fn bytes_content(b: bytes::Bytes) -> Seq<u8>;

/// Relies on `impl From<Vec<u8>> for bytes::Bytes`: the new handle holds
/// exactly the vector's bytes.
#[verifier::external_body]
pub(crate) fn bytes_from_vec(v: Vec<u8>) -> (b: bytes::Bytes)
    ensures
        bytes_content(b) == v@,
{
    bytes::Bytes::from(v)
}

/// Relies on `<bytes::Bytes as AsRef<[u8]>>::as_ref`: the slice is the
/// bytes the handle holds; `to_vec` copies it out.
#[verifier::external_body]
pub(crate) fn bytes_to_vec(b: &bytes::Bytes) -> (v: Vec<u8>)
    ensures
        v@ == bytes_content(*b),
{
    b.as_ref().to_vec()
}

/// Relies on `bytes::Bytes::len`: the length of the held slice.
#[verifier::external_body]
pub(crate) fn bytes_len(b: &bytes::Bytes) -> (n: usize)
    ensures
        n == bytes_content(*b).len(),
{
    b.len()
}

/// Relies on `<bytes::Bytes as Clone>::clone`: the clone is a new handle
/// to the same bytes.
#[verifier::external_body]
pub(crate) fn bytes_dup(b: &bytes::Bytes) -> (r: bytes::Bytes)
    ensures
        bytes_content(r) == bytes_content(*b),
{
    b.clone()
}

} // verus!
