//! SHA-256, and the hash of a pair of 32-byte nodes.

use crate::byte_copy::copy_into_at;
use sha2::Digest;
use vstd::prelude::*;

verus! {

/// The SHA-256 digest of `data`.
pub uninterp spec fn sha256(data: Seq<u8>) -> Seq<u8>;

/// Calls `sha2::Sha256::digest` on `data`.
///
/// Trusted: the 32 bytes it returns are the SHA-256 digest of `data`, a
/// function of `data` alone.
#[verifier::external_body]
fn sha256_digest(data: &[u8]) -> (digest: [u8; 32])
    ensures
        digest@ == sha256(data@),
{
    sha2::Sha256::digest(data).into()
}

/// The hash of the concatenation of two 32-byte nodes.
pub open spec fn hash_pair(a: Seq<u8>, b: Seq<u8>) -> Seq<u8> {
    sha256(a + b)
}

/// Hashes the 64 bytes `a ++ b` with SHA-256.
pub fn sha_pair(a: &[u8; 32], b: &[u8; 32]) -> (h: [u8; 32])
    ensures
        h@ == hash_pair(a@, b@),
{
    let mut buf = [0u8; 64];
    copy_into_at(&mut buf, 0, a.as_slice());
    copy_into_at(&mut buf, 32, b.as_slice());
    assert(buf@ =~= a@ + b@);
    sha256_digest(buf.as_slice())
}

/// The hash of a pair of nodes is the SHA-256 digest of the first node's
/// bytes followed by the second's.
pub proof fn lemma_hash_pair_order(a: Seq<u8>, b: Seq<u8>)
    ensures
        hash_pair(a, b) == sha256(a + b),
{
}

} // verus!
