use rbuilder::hash::sha_pair;
use rbuilder::ssz_roots::{compute_transactions_root, ssz_leaf_root};
use rbuilder::tx_proof::{generate_transactions_merkle_proof, merkle_proof_from_leaf_roots};
use sha2::{Digest, Sha256};
use ssz_types::VariableList;
use tree_hash::TreeHash;

type Tx = VariableList<u8, typenum::U1073741824>;
type Txs = VariableList<Tx, typenum::U1048576>;

fn reference_transactions_root(txs: &[Vec<u8>]) -> [u8; 32] {
    let list = Txs::new(txs.iter().map(|t| Tx::new(t.clone()).unwrap()).collect()).unwrap();
    list.tree_hash_root().0
}

fn hash2(a: &[u8; 32], b: &[u8; 32]) -> [u8; 32] {
    let mut h = Sha256::new();
    h.update(a);
    h.update(b);
    h.finalize().into()
}

fn fold_branch(leaf: [u8; 32], index: usize, branch: &[[u8; 32]]) -> [u8; 32] {
    let mut node = leaf;
    let mut i = index;
    for sibling in branch {
        node = if i % 2 == 0 { hash2(&node, sibling) } else { hash2(sibling, &node) };
        i /= 2;
    }
    node
}

fn mix_in_length(root: &[u8; 32], len: usize) -> [u8; 32] {
    let mut chunk = [0u8; 32];
    chunk[..8].copy_from_slice(&(len as u64).to_le_bytes());
    hash2(root, &chunk)
}

fn sample_txs() -> Vec<Vec<u8>> {
    vec![
        vec![0x02, 0xf8, 0x6f, 0x01],
        (0u8..100).collect(),
        vec![0xde, 0xad, 0xbe, 0xef, 0x00, 0x01],
    ]
}

#[test]
fn sha_pair_is_sha256_of_concatenation() {
    let a = [1u8; 32];
    let b = [2u8; 32];
    let mut both = a.to_vec();
    both.extend_from_slice(&b);
    let expected: [u8; 32] = Sha256::digest(&both).into();
    assert_eq!(sha_pair(&a, &b), expected);
    assert_ne!(sha_pair(&a, &b), sha_pair(&b, &a));
}

#[test]
fn leaf_root_is_byte_list_root() {
    for tx in sample_txs() {
        assert_eq!(ssz_leaf_root(&tx), Tx::new(tx.clone()).unwrap().tree_hash_root().0);
    }
    assert_eq!(ssz_leaf_root(&[]), Tx::new(vec![]).unwrap().tree_hash_root().0);
}

#[test]
fn transactions_root_matches_ssz() {
    let txs = sample_txs();
    assert_eq!(compute_transactions_root(&txs), reference_transactions_root(&txs));
    assert_eq!(compute_transactions_root(&[]), reference_transactions_root(&[]));
}

#[test]
fn branch_recomputes_root_of_unmodified_payload() {
    let txs = sample_txs();
    let branch = generate_transactions_merkle_proof(&txs);
    assert_eq!(branch.len(), 20);
    let last = txs.len() - 1;
    let root = fold_branch(ssz_leaf_root(&txs[last]), last, &branch);
    assert_eq!(mix_in_length(&root, txs.len()), compute_transactions_root(&txs));
}

#[test]
fn branch_recomputes_root_after_replacing_last_transaction() {
    let txs = sample_txs();
    let branch = generate_transactions_merkle_proof(&txs);
    let mut adjusted = txs.clone();
    let last = adjusted.len() - 1;
    adjusted[last] = vec![0x42; 77];
    assert_eq!(generate_transactions_merkle_proof(&adjusted), branch);
    let root = fold_branch(ssz_leaf_root(&adjusted[last]), last, &branch);
    assert_eq!(mix_in_length(&root, adjusted.len()), reference_transactions_root(&adjusted));
}

#[test]
fn branch_of_single_transaction_is_zero_subtrees() {
    let txs = vec![vec![7u8; 10]];
    let branch = generate_transactions_merkle_proof(&txs);
    let mut zero = [0u8; 32];
    for sibling in &branch {
        assert_eq!(*sibling, zero);
        zero = sha_pair(&zero, &zero);
    }
}

#[test]
fn branch_from_leaf_roots_of_inner_index() {
    let leaves: Vec<[u8; 32]> = (0u8..5).map(|i| [i + 1; 32]).collect();
    let branch = merkle_proof_from_leaf_roots(leaves.clone(), 2);
    assert_eq!(branch[0], leaves[3]);
    assert_eq!(branch[1], sha_pair(&leaves[0], &leaves[1]));
    let root = fold_branch(leaves[2], 2, &branch);
    let list = VariableList::<alloy_primitives::B256, typenum::U1048576>::new(
        leaves.iter().map(|l| alloy_primitives::B256::from(*l)).collect(),
    )
    .unwrap();
    assert_eq!(mix_in_length(&root, leaves.len()), list.tree_hash_root().0);
}
