//! The MD5 digest that turns a seed into the numbers a song is built from.

use vstd::prelude::*;

verus! {

/// The MD5 digest of `data`, as `md5::compute` returns it: sixteen bytes
/// that depend on `data` alone.
pub uninterp spec fn md5_of(data: Seq<u8>) -> Seq<u8>;

/// Calls `md5::compute` and returns the digest bytes. Claimed of it: the
/// result is `md5_of` of the input, a function of the input bytes alone
/// (the crate computes RFC 1321 MD5 and never fails); the bytes themselves
/// are not stated.
#[verifier::external_body]
pub(crate) fn md5_digest(data: &[u8]) -> (r: [u8; 16])
    ensures
        r@ == md5_of(data@),
{
    md5::compute(data).0
}

} // verus!
