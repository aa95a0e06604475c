//! Binary merkle trees over 32-byte chunks, as SSZ merkleization builds them:
//! a tree of a given depth whose leaves are a sequence of chunks followed by
//! zero chunks, its nodes, the authentication path of a leaf, and the root
//! recomputed from a leaf and its path.

use crate::hash::{hash_pair, sha256};
use vstd::arithmetic::div_mod::{lemma_div_denominator, lemma_fundamental_div_mod};
use vstd::arithmetic::power2::{lemma_pow2_pos, lemma_pow2_unfold, pow2};
use vstd::prelude::*;

verus! {

/// The chunk of 32 zero bytes that pads every tree.
pub open spec fn zero_chunk() -> Seq<u8> {
    Seq::new(32, |_i: int| 0u8)
}

/// The byte contents of a sequence of 32-byte chunks.
pub open spec fn chunk_views(chunks: Seq<[u8; 32]>) -> Seq<Seq<u8>> {
    chunks.map_values(|c: [u8; 32]| c@)
}

/// The node at `level` (leaves are level 0) and position `index` of the tree
/// whose leaves are `leaves` followed by as many zero chunks as needed.
pub open spec fn merkle_node(leaves: Seq<Seq<u8>>, level: nat, index: int) -> Seq<u8>
    decreases level,
{
    if level == 0 {
        if 0 <= index < leaves.len() {
            leaves[index]
        } else {
            zero_chunk()
        }
    } else {
        hash_pair(
            merkle_node(leaves, (level - 1) as nat, 2 * index),
            merkle_node(leaves, (level - 1) as nat, 2 * index + 1),
        )
    }
}

/// The root of the tree of the given depth over `leaves` (2^depth leaf positions).
pub open spec fn merkle_root(leaves: Seq<Seq<u8>>, depth: nat) -> Seq<u8> {
    merkle_node(leaves, depth, 0)
}

/// The position of the other child of the same parent.
pub open spec fn sibling_index(i: int) -> int {
    if i % 2 == 0 {
        i + 1
    } else {
        i - 1
    }
}

/// The authentication path of leaf `index`: for each level below `depth`,
/// bottom-up, the sibling of the node on the way from the leaf to the root.
pub open spec fn merkle_branch(leaves: Seq<Seq<u8>>, depth: nat, index: int) -> Seq<Seq<u8>> {
    Seq::new(
        depth,
        |k: int| merkle_node(leaves, k as nat, sibling_index(index / (pow2(k as nat) as int))),
    )
}

/// The node reached from `leaf` at position `index` by hashing it, level by
/// level, with the nodes of `branch`.
pub open spec fn root_from_branch(leaf: Seq<u8>, index: int, branch: Seq<Seq<u8>>) -> Seq<u8>
    decreases branch.len(),
{
    if branch.len() == 0 {
        leaf
    } else {
        let below = root_from_branch(leaf, index, branch.drop_last());
        let k = (branch.len() - 1) as nat;
        if (index / (pow2(k) as int)) % 2 == 0 {
            hash_pair(below, branch.last())
        } else {
            hash_pair(branch.last(), below)
        }
    }
}

/// Two leaf sequences that hold the same chunk at every position but `index`.
pub open spec fn agree_except(l1: Seq<Seq<u8>>, l2: Seq<Seq<u8>>, index: int) -> bool {
    forall|m: int| m != index ==> #[trigger] merkle_node(l1, 0, m) == merkle_node(l2, 0, m)
}

proof fn lemma_div_pow2_step(i: int, k: nat)
    requires
        0 <= i,
    ensures
        (i / (pow2(k) as int)) / 2 == i / (pow2(k + 1) as int),
        pow2(k + 1) == 2 * pow2(k),
{
    lemma_pow2_pos(k);
    lemma_pow2_unfold(k + 1);
    lemma_div_denominator(i, pow2(k) as int, 2);
}

/// Folding a leaf with its authentication path up to `depth` gives the node
/// above the leaf at that level.
pub proof fn lemma_root_from_branch(leaves: Seq<Seq<u8>>, depth: nat, index: int)
    requires
        0 <= index,
    ensures
        root_from_branch(merkle_node(leaves, 0, index), index, merkle_branch(leaves, depth, index))
            == merkle_node(leaves, depth, index / (pow2(depth) as int)),
    decreases depth,
{
    let leaf = merkle_node(leaves, 0, index);
    if depth == 0 {
        assert(pow2(0) == 1) by {
            vstd::arithmetic::power2::lemma2_to64();
        }
        assert(merkle_branch(leaves, 0, index) =~= Seq::<Seq<u8>>::empty());
    } else {
        let d = (depth - 1) as nat;
        let branch = merkle_branch(leaves, depth, index);
        lemma_root_from_branch(leaves, d, index);
        assert(branch.drop_last() =~= merkle_branch(leaves, d, index));
        lemma_pow2_pos(d);
        let j = index / (pow2(d) as int);
        assert(j >= 0) by {
            vstd::arithmetic::div_mod::lemma_div_pos_is_pos(index, pow2(d) as int);
        }
        lemma_div_pow2_step(index, d);
        assert(branch.last() == merkle_node(leaves, d, sibling_index(j)));
        let q = index / (pow2(depth) as int);
        assert(q == j / 2);
        if j % 2 == 0 {
            assert(2 * q == j);
        } else {
            assert(2 * q + 1 == j);
        }
    }
}

/// A node depends only on the leaves below it: two leaf sequences that agree
/// everywhere but at `index` give the same node wherever `index` is not below it.
pub proof fn lemma_node_independent(
    l1: Seq<Seq<u8>>,
    l2: Seq<Seq<u8>>,
    level: nat,
    j: int,
    index: int,
)
    requires
        agree_except(l1, l2, index),
        !(j * (pow2(level) as int) <= index < (j + 1) * (pow2(level) as int)),
    ensures
        merkle_node(l1, level, j) == merkle_node(l2, level, j),
    decreases level,
{
    if level == 0 {
        assert(pow2(0) == 1) by {
            vstd::arithmetic::power2::lemma2_to64();
        }
        assert(merkle_node(l1, 0, j) == merkle_node(l2, 0, j));
    } else {
        let d = (level - 1) as nat;
        let p = pow2(d) as int;
        lemma_pow2_unfold(level);
        assert(j * (pow2(level) as int) == (2 * j) * p) by (nonlinear_arith)
            requires
                pow2(level) as int == 2 * p,
        ;
        assert((j + 1) * (pow2(level) as int) == (2 * j + 2) * p) by (nonlinear_arith)
            requires
                pow2(level) as int == 2 * p,
        ;
        assert((2 * j + 1) * p == (2 * j) * p + p) by (nonlinear_arith);
        assert((2 * j + 2) * p == (2 * j + 1) * p + p) by (nonlinear_arith);
        lemma_node_independent(l1, l2, d, 2 * j, index);
        lemma_node_independent(l1, l2, d, 2 * j + 1, index);
    }
}

/// The authentication path of a leaf does not depend on the leaf itself.
pub proof fn lemma_branch_independent(
    l1: Seq<Seq<u8>>,
    l2: Seq<Seq<u8>>,
    depth: nat,
    index: int,
)
    requires
        0 <= index,
        agree_except(l1, l2, index),
    ensures
        merkle_branch(l1, depth, index) == merkle_branch(l2, depth, index),
{
    assert forall|k: int| 0 <= k < depth implies merkle_branch(l1, depth, index)[k]
        == merkle_branch(l2, depth, index)[k] by {
        let p = pow2(k as nat) as int;
        lemma_pow2_pos(k as nat);
        let q = index / p;
        let s = sibling_index(q);
        lemma_fundamental_div_mod(index, p);
        assert(0 <= index % p < p) by {
            vstd::arithmetic::div_mod::lemma_mod_pos_bound(index, p);
        }
        assert(q * p <= index < (q + 1) * p) by (nonlinear_arith)
            requires
                index == p * q + index % p,
                0 <= index % p < p,
        ;
        assert(!(s * p <= index < (s + 1) * p)) by (nonlinear_arith)
            requires
                q * p <= index < (q + 1) * p,
                s == q + 1 || s == q - 1,
                p > 0,
        ;
        lemma_node_independent(l1, l2, k as nat, s, index);
    }
    assert(merkle_branch(l1, depth, index) =~= merkle_branch(l2, depth, index));
}

/// The tree's nodes: a leaf is the given chunk at its position, or a zero
/// chunk past the given leaves; an inner node is the SHA-256 digest of its
/// left child followed by its right child.
pub proof fn lemma_merkle_node_layout(leaves: Seq<Seq<u8>>, level: nat, index: int)
    ensures
        0 <= index < leaves.len() ==> merkle_node(leaves, 0, index) == leaves[index],
        !(0 <= index < leaves.len()) ==> merkle_node(leaves, 0, index) == Seq::new(32, |_i: int| 0u8),
        merkle_node(leaves, level + 1, index) == sha256(
            merkle_node(leaves, level, 2 * index) + merkle_node(leaves, level, 2 * index + 1),
        ),
{
    assert(merkle_node(leaves, level + 1, index) == hash_pair(
        merkle_node(leaves, level, 2 * index),
        merkle_node(leaves, level, 2 * index + 1),
    ));
}

} // verus!
