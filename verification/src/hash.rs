//! The Keccak-256 hash.

use vstd::prelude::*;
use sha3::Digest;

verus! {

/// The Keccak-256 digest of a byte string: a function of the bytes alone,
/// computed by the `sha3` crate and not defined here.
pub uninterp spec fn keccak256_of(data: Seq<u8>) -> Seq<u8>;

/// Calls `sha3::Keccak256::digest`, which hashes the whole input and returns
/// the 32 bytes of the digest.
#[verifier::external_body]
fn keccak256_digest(value: &[u8]) -> (r: Vec<u8>)
    ensures
        r@ == keccak256_of(value@),
        r@.len() == 32,
{
    sha3::Keccak256::digest(value).to_vec()
}

/// The Keccak-256 digest of `value`.
pub fn keccak256(value: &[u8]) -> (r: [u8; 32])
    ensures
        r@ == keccak256_of(value@),
{
    let digest = keccak256_digest(value);
    let mut out = [0u8;32];
    let mut i: usize = 0;
    while i < 32
        invariant
            i <= 32,
            digest@.len() == 32,
            out@.len() == 32,
            forall|j: int| 0 <= j < i ==> out@[j] == digest@[j],
        decreases 32 - i,
    {
        out[i] = digest[i];
        i += 1;
    }
    assert(out@ =~= digest@);
    out
}

} // verus!
