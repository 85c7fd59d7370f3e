//! The one content hash, Keccak-256, and the comparison of byte strings.

use sha3::Digest;
use sha3::Keccak256;
use vstd::prelude::*;

verus! {

/// The Keccak-256 digest of `data`, as the `sha3` crate computes it.
pub uninterp spec fn keccak256_digest(data: Seq<u8>) -> Seq<u8>;

/// Width in bytes of a content hash.
pub const HASH_SIZE: usize = 32;

/// Calls `sha3::Keccak256::digest`. Trusted: the result is the Keccak-256
/// digest of the input and nothing else decides it; it is 32 bytes long,
/// the output size that the crate fixes for this hasher.
#[verifier::external_body]
pub(crate) fn keccak256(data: &[u8]) -> (digest: Vec<u8>)
    ensures
        digest@ == keccak256_digest(data@),
        digest@.len() == HASH_SIZE,
{
    Keccak256::digest(data).to_vec()
}

/// Tells whether two byte strings are equal.
pub fn same_bytes(a: &[u8], b: &[u8]) -> (r: bool)
    ensures
        r == (a@ == b@),
{
    if a.len() != b.len() {
        return false;
    }
    let mut i: usize = 0;
    while i < a.len()
        invariant
            a@.len() == b@.len(),
            i <= a@.len(),
            forall|k: int| 0 <= k < i ==> a@[k] == b@[k],
        decreases a@.len() - i,
    {
        if a[i] != b[i] {
            return false;
        }
        i += 1;
    }
    assert(a@ =~= b@);
    true
}

/// The same bytes never have two content hashes: what is hashed decides
/// the hash.
pub proof fn lemma_same_bytes_same_hash(a: Seq<u8>, b: Seq<u8>)
    requires
        a == b,
    ensures
        keccak256_digest(a) == keccak256_digest(b),
{
}

} // verus!
