use alloy_primitives::{FixedBytes, B256};
use rbuilder::ssz_roots::{compute_withdrawals_root, u64_to_chunk, Withdrawal};
use ssz_types::{FixedVector, VariableList};
use tree_hash::{MerkleHasher, TreeHash};

fn reference_withdrawal_root(w: &Withdrawal) -> [u8; 32] {
    let address = FixedVector::<u8, typenum::U20>::new(w.address.to_vec()).unwrap();
    let mut address_container = MerkleHasher::with_leaves(1);
    address_container.write(address.tree_hash_root().as_slice()).unwrap();
    let address_root = address_container.finish().unwrap();
    let mut hasher = MerkleHasher::with_leaves(4);
    hasher.write(w.index.tree_hash_root().as_slice()).unwrap();
    hasher.write(w.validator_index.tree_hash_root().as_slice()).unwrap();
    hasher.write(address_root.as_slice()).unwrap();
    hasher.write(w.amount.tree_hash_root().as_slice()).unwrap();
    hasher.finish().unwrap().0
}

fn reference_withdrawals_root(ws: &[Withdrawal]) -> [u8; 32] {
    let roots: Vec<B256> = ws.iter().map(|w| B256::from(reference_withdrawal_root(w))).collect();
    VariableList::<B256, typenum::U16>::new(roots).unwrap().tree_hash_root().0
}

fn withdrawal(i: u64) -> Withdrawal {
    Withdrawal {
        index: 1000 + i,
        validator_index: 77 * i,
        address: [i as u8; 20],
        amount: 32_000_000_000 + i,
    }
}

#[test]
fn u64_chunk_is_little_endian_padded() {
    let chunk = u64_to_chunk(0x0102030405060708);
    assert_eq!(&chunk[..8], &[8, 7, 6, 5, 4, 3, 2, 1]);
    assert_eq!(&chunk[8..], &[0u8; 24]);
    assert_eq!(chunk, 0x0102030405060708u64.tree_hash_root().0);
}

#[test]
fn withdrawal_root_matches_container_hashing() {
    for i in 0..3 {
        let w = withdrawal(i);
        assert_eq!(w.tree_hash_root(), reference_withdrawal_root(&w));
    }
}

#[test]
fn withdrawals_root_matches_ssz() {
    let ws: Vec<Withdrawal> = (0..5).map(withdrawal).collect();
    assert_eq!(compute_withdrawals_root(&ws), reference_withdrawals_root(&ws));
    assert_eq!(compute_withdrawals_root(&[]), reference_withdrawals_root(&[]));
}

#[test]
fn withdrawals_beyond_sixteen_are_left_out() {
    let ws: Vec<Withdrawal> = (0..20).map(withdrawal).collect();
    assert_eq!(compute_withdrawals_root(&ws), compute_withdrawals_root(&ws[..16]));
    assert_eq!(compute_withdrawals_root(&ws[..16]), reference_withdrawals_root(&ws[..16]));
}

#[test]
fn empty_withdrawals_root_is_known_value() {
    // mix_in_length(zero root of a depth-4 tree, 0)
    let mut zero = [0u8; 32];
    for _ in 0..4 {
        zero = rbuilder::hash::sha_pair(&zero, &zero);
    }
    let expected = rbuilder::hash::sha_pair(&zero, &[0u8; 32]);
    assert_eq!(compute_withdrawals_root(&[]), expected);
    let _unused: FixedBytes<32> = B256::ZERO;
}
