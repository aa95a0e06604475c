use alloy_primitives::{hex, B256};
use rbuilder::signing::{
    compute_domain, compute_signing_root, BUILDER_DOMAIN, GENESIS_FORK_VERSION_HOODI,
    GENESIS_VALIDATORS_ROOT_HOODI,
};
use tree_hash::{MerkleHasher, TreeHash};

fn two_field_container(a: &[u8; 32], b: &[u8; 32]) -> [u8; 32] {
    let mut hasher = MerkleHasher::with_leaves(2);
    hasher.write(a).unwrap();
    hasher.write(b).unwrap();
    hasher.finish().unwrap().0
}

#[test]
fn mainnet_builder_domain() {
    let domain = compute_domain([0, 0, 0, 1], [0, 0, 0, 0], [0u8; 32]);
    let expected = hex::decode("00000001f5a5fd42d16a20302798ef6ed309979b43003d2320d9f0e8ea9831a9").unwrap();
    assert_eq!(domain.to_vec(), expected);
}

#[test]
fn domain_is_type_then_fork_data_root_prefix() {
    let version = [0x10, 0x00, 0x09, 0x10];
    let root = [0x5a; 32];
    let fork_data_root = two_field_container(&version.tree_hash_root().0, &B256::from(root).tree_hash_root().0);
    let domain = compute_domain([9, 8, 7, 6], version, root);
    assert_eq!(&domain[..4], &[9, 8, 7, 6]);
    assert_eq!(&domain[4..], &fork_data_root[..28]);
}

#[test]
fn signing_root_uses_hoodi_builder_domain() {
    let object_root = [0x11u8; 32];
    let domain = compute_domain(BUILDER_DOMAIN, GENESIS_FORK_VERSION_HOODI, GENESIS_VALIDATORS_ROOT_HOODI);
    assert_eq!(&domain[..4], &[0, 0, 0, 1]);
    assert_eq!(compute_signing_root(&object_root), two_field_container(&object_root, &domain));
    assert_eq!(GENESIS_FORK_VERSION_HOODI, [0x10, 0x00, 0x09, 0x10]);
}
