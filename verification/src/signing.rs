//! Signing roots of builder messages: the signing domain built from a domain
//! type, a fork version and a genesis validators root, and the root a BLS
//! signature over a message signs.

use crate::byte_copy::copy_into_at;
use crate::hash::{hash_pair, sha256, sha_pair};
use vstd::slice::slice_subrange;
use vstd::prelude::*;

verus! {

/// The builder signing domain type.
pub const BUILDER_DOMAIN: [u8; 4] = [0u8, 0u8, 0u8, 1u8];

/// The genesis fork version of the Hoodi network.
pub const GENESIS_FORK_VERSION_HOODI: [u8; 4] = [16u8, 0u8, 9u8, 16u8];

/// The genesis validators root used for builder signing: all zero.
pub const GENESIS_VALIDATORS_ROOT_HOODI: [u8; 32] = [
    0u8, 0u8, 0u8, 0u8, 0u8, 0u8, 0u8, 0u8, 0u8, 0u8, 0u8, 0u8, 0u8, 0u8, 0u8, 0u8,
    0u8, 0u8, 0u8, 0u8, 0u8, 0u8, 0u8, 0u8, 0u8, 0u8, 0u8, 0u8, 0u8, 0u8, 0u8, 0u8,
];

/// The chunk of a 4-byte fork version: its bytes, zero padded.
pub open spec fn version_chunk(version: Seq<u8>) -> Seq<u8> {
    version + Seq::new(28, |_i: int| 0u8)
}

/// The hash tree root of the fork data container (current version, genesis
/// validators root).
pub open spec fn fork_data_root(fork_version: Seq<u8>, validators_root: Seq<u8>) -> Seq<u8> {
    hash_pair(version_chunk(fork_version), validators_root)
}

/// The signing domain: the domain type followed by the first 28 bytes of the
/// fork data root.
pub open spec fn signing_domain(
    domain_type: Seq<u8>,
    fork_version: Seq<u8>,
    validators_root: Seq<u8>,
) -> Seq<u8> {
    domain_type + fork_data_root(fork_version, validators_root).take(28)
}

/// The signing root of an object: the hash tree root of the signing data
/// container (object root, domain).
pub open spec fn signing_root(object_root: Seq<u8>, domain: Seq<u8>) -> Seq<u8> {
    hash_pair(object_root, domain)
}

/// The domain builder messages are signed in.
pub open spec fn builder_domain() -> Seq<u8> {
    signing_domain(BUILDER_DOMAIN@, GENESIS_FORK_VERSION_HOODI@, GENESIS_VALIDATORS_ROOT_HOODI@)
}

/// Computes the signing domain of `domain_type` for the given fork version and
/// genesis validators root.
pub fn compute_domain(domain_type: [u8; 4], fork_version: [u8; 4], validators_root: [u8; 32]) -> (domain: [u8; 32])
    ensures
        domain@ == signing_domain(domain_type@, fork_version@, validators_root@),
{
    let mut version = [0u8; 32];
    copy_into_at(&mut version, 0, fork_version.as_slice());
    assert(version@ =~= version_chunk(fork_version@));
    let fork_data_root = sha_pair(&version, &validators_root);

    let mut domain = [0u8; 32];
    copy_into_at(&mut domain, 0, domain_type.as_slice());
    copy_into_at(&mut domain, 4, slice_subrange(fork_data_root.as_slice(), 0, 28));
    assert(domain@ =~= signing_domain(domain_type@, fork_version@, validators_root@));
    domain
}

/// The root that a builder's BLS signature over an object with hash tree root
/// `object_root` signs: the signing root in the builder domain of the Hoodi
/// network.
pub fn compute_signing_root(object_root: &[u8; 32]) -> (root: [u8; 32])
    ensures
        root@ == signing_root(object_root@, builder_domain()),
{
    let domain = compute_domain(
        BUILDER_DOMAIN,
        GENESIS_FORK_VERSION_HOODI,
        GENESIS_VALIDATORS_ROOT_HOODI,
    );
    sha_pair(object_root, &domain)
}

/// The signing domain is the domain type followed by the first 28 bytes of
/// the SHA-256 hash of the fork version padded to 32 bytes with zeros and the
/// genesis validators root.
pub proof fn lemma_signing_domain_layout(domain_type: Seq<u8>, fork_version: Seq<u8>, validators_root: Seq<u8>)
    requires
        fork_version.len() == 4,
    ensures
        signing_domain(domain_type, fork_version, validators_root) == domain_type + sha256(
            Seq::new(32, |i: int| if i < 4 { fork_version[i] } else { 0u8 }) + validators_root,
        ).take(28),
{
    assert(version_chunk(fork_version) =~= Seq::new(32, |i: int| if i < 4 { fork_version[i] } else { 0u8 }));
}

/// The signing root of an object is the SHA-256 hash of its root followed by
/// the domain.
pub proof fn lemma_signing_root_layout(object_root: Seq<u8>, domain: Seq<u8>)
    ensures
        signing_root(object_root, domain) == sha256(object_root + domain),
{
}

/// Builder messages are signed in the domain of type 0x00000001 for fork
/// version 0x10000910 and an all-zero genesis validators root.
pub proof fn lemma_builder_domain()
    ensures
        builder_domain() == seq![0u8, 0u8, 0u8, 1u8] + sha256(
            seq![16u8, 0u8, 9u8, 16u8] + Seq::new(60, |_i: int| 0u8),
        ).take(28),
{
    assert(BUILDER_DOMAIN@ =~= seq![0u8, 0u8, 0u8, 1u8]);
    assert(version_chunk(GENESIS_FORK_VERSION_HOODI@) + GENESIS_VALIDATORS_ROOT_HOODI@ =~= seq![
        16u8,
        0u8,
        9u8,
        16u8,
    ] + Seq::new(60, |_i: int| 0u8));
}

} // verus!
