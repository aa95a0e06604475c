//! The merkle branch of a payload's transactions list: the data a relay needs
//! to recompute the transactions root after the last transaction changed.
//! The tree is the one SSZ builds for a list of up to 2^20 transactions.

use crate::hash::sha_pair;
use crate::merkle::{
    agree_except, chunk_views, lemma_branch_independent, lemma_root_from_branch, merkle_branch,
    merkle_node, root_from_branch, zero_chunk,
};
use crate::ssz_roots::{
    byte_seqs, mix_in_length, ssz_leaf_root, transactions_root, tx_leaf_root, tx_leaf_roots,
    MAX_TRANSACTIONS_PER_PAYLOAD,
};
use vstd::arithmetic::power2::{
    lemma2_to64, lemma_pow2_pos, lemma_pow2_strictly_increases, lemma_pow2_unfold, pow2,
};
use vstd::prelude::*;

verus! {

/// Depth of the transactions tree: log2 of the most transactions a payload holds.
pub const TREE_DEPTH: usize = 20;

proof fn lemma_xor_one(x: usize)
    ensures
        x % 2 == 0 ==> x ^ 1 == x + 1,
        x % 2 == 1 ==> x ^ 1 == x - 1,
{
    assert(x % 2 == 0 ==> x ^ 1 == x + 1) by (bit_vector);
    assert(x % 2 == 1 ==> x ^ 1 == x - 1) by (bit_vector);
}

/// Builds the authentication path of leaf `element_index` in the depth-20 tree
/// whose leaves are `leaves`, padded with zero chunks to 2^20 leaves (leaves
/// past that limit are dropped). The whole tree is built level by level.
pub fn merkle_proof_from_leaf_roots(leaves: Vec<[u8; 32]>, element_index: usize) -> (branch: Vec<[u8; 32]>)
    requires
        element_index < MAX_TRANSACTIONS_PER_PAYLOAD,
    ensures
        branch@.len() == TREE_DEPTH,
        chunk_views(branch@) == merkle_branch(chunk_views(leaves@), TREE_DEPTH as nat, element_index as int),
{
    let ghost l = chunk_views(leaves@);
    proof {
        lemma2_to64();
    }
    let mut leaves = leaves;
    // SSZ pads a list to the limit of its type: 2^20 leaves.
    let max_chunk_count: usize = 1 << TREE_DEPTH;
    assert(max_chunk_count == 1048576) by (bit_vector)
        requires
            max_chunk_count == 1usize << 20usize,
    ;
    leaves.truncate(max_chunk_count);
    let zero: [u8; 32] = [0u8; 32];
    assert(zero@ =~= zero_chunk());
    while leaves.len() < max_chunk_count
        invariant
            max_chunk_count == 1048576,
            zero@ == zero_chunk(),
            leaves@.len() <= max_chunk_count,
            leaves@.len() == max_chunk_count || leaves@.len() >= l.len(),
            forall|j: int| 0 <= j < leaves@.len() ==> #[trigger] leaves@[j]@ == merkle_node(l, 0, j),
        decreases max_chunk_count - leaves.len(),
    {
        leaves.push(zero);
    }

    // Build the tree bottom-up, collecting the sibling at each level.
    let mut branch: Vec<[u8; 32]> = Vec::new();
    let mut current_level = leaves;
    let mut current_index = element_index;
    let mut level: usize = 0;
    assert(element_index as int / (pow2(0) as int) == element_index as int);
    while level < TREE_DEPTH
        invariant
            level <= TREE_DEPTH,
            pow2(20) == 1048576,
            current_level@.len() == pow2((TREE_DEPTH - level) as nat),
            forall|j: int|
                0 <= j < current_level@.len() ==> #[trigger] current_level@[j]@ == merkle_node(
                    l,
                    level as nat,
                    j,
                ),
            current_index as int == element_index as int / (pow2(level as nat) as int),
            current_index < current_level@.len(),
            branch@.len() == level,
            forall|k: int|
                0 <= k < level ==> #[trigger] branch@[k]@ == merkle_branch(
                    l,
                    TREE_DEPTH as nat,
                    element_index as int,
                )[k],
        ensures
            level == TREE_DEPTH,
            branch@.len() == TREE_DEPTH,
            forall|k: int|
                0 <= k < TREE_DEPTH ==> #[trigger] branch@[k]@ == merkle_branch(
                    l,
                    TREE_DEPTH as nat,
                    element_index as int,
                )[k],
        decreases TREE_DEPTH - level,
    {
        let ghost len = current_level@.len();
        let ghost half = pow2((TREE_DEPTH - level - 1) as nat);
        proof {
            lemma_pow2_unfold((TREE_DEPTH - level) as nat);
            lemma_pow2_pos((TREE_DEPTH - level - 1) as nat);
            lemma_xor_one(current_index);
        }
        // The sibling at this level.
        let sibling_index = current_index ^ 1;
        branch.push(current_level[sibling_index]);
        assert(branch@[level as int]@ == merkle_branch(l, TREE_DEPTH as nat, element_index as int)[level as int]);

        // The next level up.
        let mut next_level: Vec<[u8; 32]> = Vec::new();
        let mut i: usize = 0;
        while i < current_level.len()
            invariant
                len == current_level@.len(),
                len == 2 * half,
                i <= len,
                i == 2 * next_level@.len(),
                forall|j: int|
                    0 <= j < current_level@.len() ==> #[trigger] current_level@[j]@ == merkle_node(
                        l,
                        level as nat,
                        j,
                    ),
                forall|j: int|
                    0 <= j < next_level@.len() ==> #[trigger] next_level@[j]@ == merkle_node(
                        l,
                        (level + 1) as nat,
                        j,
                    ),
            decreases len - i,
        {
            let left = current_level[i];
            let right = current_level[i + 1];
            let ghost j = next_level@.len() as int;
            next_level.push(sha_pair(&left, &right));
            assert(next_level@[j]@ == merkle_node(l, (level + 1) as nat, j));
            i = i + 2;
        }

        proof {
            lemma_pow2_pos(level as nat);
            vstd::arithmetic::div_mod::lemma_div_denominator(
                element_index as int,
                pow2(level as nat) as int,
                2,
            );
            lemma_pow2_unfold((level + 1) as nat);
            lemma_pow2_pos(level as nat);
        }
        current_level = next_level;
        current_index = current_index / 2;
        level = level + 1;

        // The root is reached.
        if current_level.len() == 1 {
            proof {
                lemma2_to64();
                if level < TREE_DEPTH {
                    lemma_pow2_strictly_increases(0, (TREE_DEPTH - level) as nat);
                }
            }
            break;
        }
    }
    assert(chunk_views(branch@) =~= merkle_branch(l, TREE_DEPTH as nat, element_index as int));
    branch
}

/// The authentication path of the last transaction of a payload in its
/// transactions tree: the data needed to recompute the transactions root after
/// the last transaction is modified.
pub fn generate_transactions_merkle_proof(txs: &[Vec<u8>]) -> (branch: Vec<[u8; 32]>)
    requires
        txs@.len() > 0,
        txs@.len() <= MAX_TRANSACTIONS_PER_PAYLOAD,
    ensures
        branch@.len() == TREE_DEPTH,
        chunk_views(branch@) == merkle_branch(
            tx_leaf_roots(byte_seqs(txs@)),
            TREE_DEPTH as nat,
            txs@.len() - 1,
        ),
{
    let last_tx_index = txs.len() - 1;
    build_ssz_variablelist_proof(txs, last_tx_index)
}

/// The authentication path of transaction `element_index` in the tree SSZ
/// builds for the transactions list.
fn build_ssz_variablelist_proof(txs: &[Vec<u8>], element_index: usize) -> (branch: Vec<[u8; 32]>)
    requires
        element_index < MAX_TRANSACTIONS_PER_PAYLOAD,
    ensures
        branch@.len() == TREE_DEPTH,
        chunk_views(branch@) == merkle_branch(
            tx_leaf_roots(byte_seqs(txs@)),
            TREE_DEPTH as nat,
            element_index as int,
        ),
{
    // The leaf roots of all transactions.
    let mut leaves: Vec<[u8; 32]> = Vec::new();
    let mut i: usize = 0;
    while i < txs.len()
        invariant
            i <= txs@.len(),
            leaves@.len() == i,
            forall|j: int|
                0 <= j < i ==> #[trigger] leaves@[j]@ == tx_leaf_root(txs@[j]@),
        decreases txs@.len() - i,
    {
        leaves.push(ssz_leaf_root(txs[i].as_slice()));
        i = i + 1;
    }
    assert(chunk_views(leaves@) =~= tx_leaf_roots(byte_seqs(txs@)));
    merkle_proof_from_leaf_roots(leaves, element_index)
}

/// The branch generated for a payload adjusts to any change of its last
/// transaction: it stays the same whatever the last transaction is, and
/// folding it with the leaf root of a new last transaction, then mixing in the
/// number of transactions, gives the transactions root of the payload whose
/// last transaction was replaced.
pub proof fn lemma_branch_recomputes_adjusted_root(txs: Seq<Seq<u8>>, new_last: Seq<u8>)
    requires
        0 < txs.len() <= MAX_TRANSACTIONS_PER_PAYLOAD,
    ensures
        ({
            let last = txs.len() - 1;
            let adjusted = txs.update(last, new_last);
            let branch = merkle_branch(tx_leaf_roots(txs), TREE_DEPTH as nat, last);
            &&& branch == merkle_branch(tx_leaf_roots(adjusted), TREE_DEPTH as nat, last)
            &&& mix_in_length(root_from_branch(tx_leaf_root(new_last), last, branch), txs.len())
                == transactions_root(adjusted)
        }),
{
    let last = txs.len() - 1;
    let adjusted = txs.update(last, new_last);
    let l1 = tx_leaf_roots(txs);
    let l2 = tx_leaf_roots(adjusted);
    assert(agree_except(l1, l2, last));
    lemma_branch_independent(l1, l2, TREE_DEPTH as nat, last);
    lemma_root_from_branch(l2, TREE_DEPTH as nat, last);
    lemma2_to64();
    assert(last / (pow2(20) as int) == 0);
    assert(merkle_node(l2, 0, last) == tx_leaf_root(new_last));
    assert(adjusted.take(adjusted.len() as int) =~= adjusted);
}

/// The branch generated for a payload proves its last transaction: folding
/// it with that transaction's leaf root, then mixing in the number of
/// transactions, gives the payload's transactions root.
pub proof fn lemma_branch_recomputes_root(txs: Seq<Seq<u8>>)
    requires
        0 < txs.len() <= MAX_TRANSACTIONS_PER_PAYLOAD,
    ensures
        ({
            let last = txs.len() - 1;
            let branch = merkle_branch(tx_leaf_roots(txs), TREE_DEPTH as nat, last);
            mix_in_length(root_from_branch(tx_leaf_root(txs[last]), last, branch), txs.len())
                == transactions_root(txs)
        }),
{
    let last = txs.len() - 1;
    lemma_branch_recomputes_adjusted_root(txs, txs[last]);
    assert(txs.update(last, txs[last]) =~= txs);
}

} // verus!
