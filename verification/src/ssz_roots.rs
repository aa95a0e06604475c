//! SSZ hash tree roots of the lists an execution payload header commits to:
//! the transactions list (each transaction a byte list of at most 2^30
//! bytes, at most 2^20 of them) and the withdrawals list (at most 16
//! withdrawal containers).

use crate::byte_copy::copy_into_at;
use crate::hash::{hash_pair, sha256, sha_pair};
use crate::merkle::{chunk_views, merkle_root};
use tree_hash::TreeHash;
use vstd::bytes::{
    spec_u64_to_le_bytes, spec_u64_to_le_bytes_open, spec_u64_to_le_bytes_to_open, u64_to_le_bytes,
};
use vstd::prelude::*;
use vstd::slice::{slice_subrange, slice_to_vec};

verus! {

/// The most bytes a transaction in the transactions list holds (2^30).
pub const MAX_BYTES_PER_TRANSACTION: usize = 1073741824;

/// The most transactions an execution payload holds (2^20).
pub const MAX_TRANSACTIONS_PER_PAYLOAD: usize = 1048576;

/// The most withdrawals an execution payload holds.
pub const MAX_WITHDRAWALS_PER_PAYLOAD: usize = 16;

/// The 32-byte chunk of an unsigned integer: its little-endian bytes, zero padded.
pub open spec fn u64_chunk(x: u64) -> Seq<u8> {
    spec_u64_to_le_bytes(x) + Seq::new(24, |_i: int| 0u8)
}

/// The node that commits to a list's root and its length.
pub open spec fn mix_in_length(root: Seq<u8>, len: nat) -> Seq<u8> {
    hash_pair(root, u64_chunk(len as u64))
}

/// `data` cut into 32-byte chunks, the last one zero padded.
pub open spec fn pack_bytes(data: Seq<u8>) -> Seq<Seq<u8>> {
    Seq::new(
        ((data.len() + 31) / 32) as nat,
        |i: int| Seq::new(32, |b: int| if 32 * i + b < data.len() { data[32 * i + b] } else { 0u8 }),
    )
}

/// The hash tree root of a byte list whose limit is 2^30 bytes (2^25 chunks).
pub open spec fn byte_list_root(data: Seq<u8>) -> Seq<u8> {
    mix_in_length(merkle_root(pack_bytes(data), 25), data.len())
}

/// A transaction as the transactions list holds it: at most its first 2^30 bytes.
pub open spec fn binary_transaction(tx: Seq<u8>) -> Seq<u8> {
    if tx.len() > MAX_BYTES_PER_TRANSACTION {
        tx.take(MAX_BYTES_PER_TRANSACTION as int)
    } else {
        tx
    }
}

/// The leaf of the transactions tree that commits to `tx`.
pub open spec fn tx_leaf_root(tx: Seq<u8>) -> Seq<u8> {
    byte_list_root(binary_transaction(tx))
}

/// The leaves of the transactions tree.
pub open spec fn tx_leaf_roots(txs: Seq<Seq<u8>>) -> Seq<Seq<u8>> {
    txs.map_values(|tx: Seq<u8>| tx_leaf_root(tx))
}

/// The contents of a sequence of byte vectors.
pub open spec fn byte_seqs(v: Seq<Vec<u8>>) -> Seq<Seq<u8>> {
    v.map_values(|t: Vec<u8>| t@)
}

/// How many transactions of `txs` the transactions list holds.
pub open spec fn listed_transactions(len: nat) -> nat {
    if len > MAX_TRANSACTIONS_PER_PAYLOAD {
        MAX_TRANSACTIONS_PER_PAYLOAD as nat
    } else {
        len
    }
}

/// The transactions root of a payload with the transactions `txs`: the root of
/// the depth-20 tree over the leaf roots of the (at most 2^20) listed
/// transactions, mixed with their number.
pub open spec fn transactions_root(txs: Seq<Seq<u8>>) -> Seq<u8> {
    let n = listed_transactions(txs.len());
    mix_in_length(merkle_root(tx_leaf_roots(txs.take(n as int)), 20), n)
}

/// Calls `tree_hash::TreeHash::tree_hash_root` on the `ssz_types::VariableList<u8, 2^30>`
/// that holds `data`.
///
/// Trusted: the root is the SSZ root of a basic list, as `ssz_types` computes
/// it with `tree_hash::MerkleHasher` and `tree_hash::mix_in_length`: the bytes
/// packed into 32-byte chunks, merkleized in a tree of 2^25 leaves padded with
/// zero chunks, and hashed with the length as a little-endian 32-byte chunk.
#[verifier::external_body]
fn ssz_byte_list_root(data: &[u8]) -> (root: [u8; 32])
    requires
        data@.len() <= MAX_BYTES_PER_TRANSACTION,
    ensures
        root@ == byte_list_root(data@),
{
    let list = ssz_types::VariableList::<u8, typenum::U1073741824>::new(data.to_vec()).unwrap();
    list.tree_hash_root().0
}

/// Calls `tree_hash::TreeHash::tree_hash_root` on the
/// `ssz_types::VariableList<VariableList<u8, 2^30>, 2^20>` that holds `txs`.
///
/// Trusted: the root is the SSZ root of a list of composite elements, as
/// `ssz_types` computes it: the elements' roots merkleized in a tree of 2^20
/// leaves padded with zero chunks, and hashed with the length as a
/// little-endian 32-byte chunk.
#[verifier::external_body]
fn ssz_transactions_list_root(txs: &[Vec<u8>]) -> (root: [u8; 32])
    requires
        txs@.len() <= MAX_TRANSACTIONS_PER_PAYLOAD,
        forall|i: int| 0 <= i < txs@.len() ==> #[trigger] txs@[i]@.len() <= MAX_BYTES_PER_TRANSACTION,
    ensures
        root@ == mix_in_length(
            merkle_root(byte_seqs(txs@).map_values(|t: Seq<u8>| byte_list_root(t)), 20),
            txs@.len() as nat,
        ),
{
    let list = ssz_types::VariableList::<
        ssz_types::VariableList<u8, typenum::U1073741824>,
        typenum::U1048576,
    >::new(
        txs.iter().map(|tx| ssz_types::VariableList::new(tx.clone()).unwrap()).collect(),
    ).unwrap();
    list.tree_hash_root().0
}

/// Calls `tree_hash::TreeHash::tree_hash_root` on the
/// `ssz_types::VariableList<B256, 16>` that holds `roots`.
///
/// Trusted: the root is the SSZ root of a list of 32-byte vectors (each its
/// own root), as `ssz_types` computes it: the elements merkleized in a tree of
/// 16 leaves padded with zero chunks, and hashed with the length as a
/// little-endian 32-byte chunk.
#[verifier::external_body]
fn ssz_root_list_root_16(roots: &[[u8; 32]]) -> (root: [u8; 32])
    requires
        roots@.len() <= MAX_WITHDRAWALS_PER_PAYLOAD,
    ensures
        root@ == mix_in_length(merkle_root(chunk_views(roots@), 4), roots@.len() as nat),
{
    let list = ssz_types::VariableList::<alloy_primitives::B256, typenum::U16>::new(
        roots.iter().map(|r| alloy_primitives::B256::from(*r)).collect(),
    ).unwrap();
    list.tree_hash_root().0
}

/// The 32-byte chunk of `x`.
pub fn u64_to_chunk(x: u64) -> (chunk: [u8; 32])
    ensures
        chunk@ == u64_chunk(x),
{
    let le = u64_to_le_bytes(x);
    let mut chunk = [0u8; 32];
    copy_into_at(&mut chunk, 0, le.as_slice());
    assert(chunk@ =~= u64_chunk(x));
    chunk
}

/// The hash tree root of a transaction as a leaf of the transactions tree: the
/// root of the byte list that holds at most its first 2^30 bytes.
pub fn ssz_leaf_root(data: &[u8]) -> (root: [u8; 32])
    ensures
        root@ == tx_leaf_root(data@),
        data@.len() <= 1073741824 ==> root@ == byte_list_root(data@),
{
    proof {
        if data@.len() <= 1073741824 {
            lemma_transaction_hashed_whole(data@);
        }
    }
    let bytes = if data.len() > MAX_BYTES_PER_TRANSACTION {
        slice_subrange(data, 0, MAX_BYTES_PER_TRANSACTION)
    } else {
        data
    };
    ssz_byte_list_root(bytes)
}

/// The transactions root of a payload whose transactions are `transactions`.
/// A list holds at most 2^20 transactions and a transaction at most 2^30
/// bytes: what lies beyond is left out.
pub fn compute_transactions_root(transactions: &[Vec<u8>]) -> (root: [u8; 32])
    ensures
        root@ == transactions_root(byte_seqs(transactions@)),
        transactions@.len() <= 1048576 && (forall|i: int|
            0 <= i < transactions@.len() ==> #[trigger] transactions@[i]@.len() <= 1073741824)
            ==> root@ == sha256(
            merkle_root(
                Seq::new(transactions@.len(), |i: int| byte_list_root(transactions@[i]@)),
                20,
            ) + u64_chunk(transactions@.len() as u64),
        ),
{
    proof {
        if transactions@.len() <= 1048576 && (forall|i: int|
            0 <= i < transactions@.len() ==> #[trigger] transactions@[i]@.len() <= 1073741824) {
            let txs = byte_seqs(transactions@);
            assert(Seq::new(transactions@.len(), |i: int| byte_list_root(transactions@[i]@)) =~= Seq::new(
                txs.len(),
                |i: int| byte_list_root(txs[i]),
            ));
            lemma_transactions_root_of_listed_payload(txs);
        }
    }
    let n = if transactions.len() > MAX_TRANSACTIONS_PER_PAYLOAD {
        MAX_TRANSACTIONS_PER_PAYLOAD
    } else {
        transactions.len()
    };
    let ghost txs = byte_seqs(transactions@);
    let mut list: Vec<Vec<u8>> = Vec::new();
    let mut i: usize = 0;
    while i < n
        invariant
            n <= transactions@.len(),
            n <= MAX_TRANSACTIONS_PER_PAYLOAD,
            txs == byte_seqs(transactions@),
            i <= n,
            list@.len() == i,
            forall|j: int|
                0 <= j < i ==> #[trigger] list@[j]@ == binary_transaction(txs[j]),
        decreases n - i,
    {
        let tx = transactions[i].as_slice();
        let bytes = if tx.len() > MAX_BYTES_PER_TRANSACTION {
            slice_to_vec(slice_subrange(tx, 0, MAX_BYTES_PER_TRANSACTION))
        } else {
            slice_to_vec(tx)
        };
        list.push(bytes);
        i = i + 1;
    }
    assert(byte_seqs(list@).map_values(|t: Seq<u8>| byte_list_root(t)) =~= tx_leaf_roots(
        txs.take(n as int),
    ));
    ssz_transactions_list_root(list.as_slice())
}

/// A withdrawal of an execution payload.
#[derive(Clone, Copy, Debug, PartialEq, Eq)]
pub struct Withdrawal {
    pub index: u64,
    pub validator_index: u64,
    pub address: [u8; 20],
    pub amount: u64,
}

/// The chunk of a 20-byte address: its bytes, zero padded.
pub open spec fn address_chunk(address: Seq<u8>) -> Seq<u8> {
    address + Seq::new(12, |_i: int| 0u8)
}

/// The hash tree root of the withdrawal container: the root of the tree over
/// its four fields' chunks.
pub open spec fn withdrawal_root(w: Withdrawal) -> Seq<u8> {
    hash_pair(
        hash_pair(u64_chunk(w.index), u64_chunk(w.validator_index)),
        hash_pair(address_chunk(w.address@), u64_chunk(w.amount)),
    )
}

/// How many withdrawals of a payload the withdrawals list holds.
pub open spec fn listed_withdrawals(len: nat) -> nat {
    if len > MAX_WITHDRAWALS_PER_PAYLOAD {
        MAX_WITHDRAWALS_PER_PAYLOAD as nat
    } else {
        len
    }
}

/// The withdrawals root of a payload with the withdrawals `ws`: the root of
/// the depth-4 tree over the roots of the (at most 16) listed withdrawals,
/// mixed with their number.
pub open spec fn withdrawals_root(ws: Seq<Withdrawal>) -> Seq<u8> {
    let n = listed_withdrawals(ws.len());
    mix_in_length(merkle_root(ws.take(n as int).map_values(|w: Withdrawal| withdrawal_root(w)), 4), n)
}

impl Withdrawal {
    /// The hash tree root of this withdrawal as an SSZ container.
    pub fn tree_hash_root(&self) -> (root: [u8; 32])
        ensures
            root@ == withdrawal_root(*self),
    {
        let mut address = [0u8; 32];
        copy_into_at(&mut address, 0, self.address.as_slice());
        assert(address@ =~= address_chunk(self.address@));
        let left = sha_pair(&u64_to_chunk(self.index), &u64_to_chunk(self.validator_index));
        let right = sha_pair(&address, &u64_to_chunk(self.amount));
        sha_pair(&left, &right)
    }
}

/// The withdrawals root of a payload whose withdrawals are `withdrawals`. A
/// list holds at most 16 withdrawals: what lies beyond is left out.
pub fn compute_withdrawals_root(withdrawals: &[Withdrawal]) -> (root: [u8; 32])
    ensures
        root@ == withdrawals_root(withdrawals@),
{
    let n = if withdrawals.len() > MAX_WITHDRAWALS_PER_PAYLOAD {
        MAX_WITHDRAWALS_PER_PAYLOAD
    } else {
        withdrawals.len()
    };
    let mut roots: Vec<[u8; 32]> = Vec::new();
    let mut i: usize = 0;
    while i < n
        invariant
            n <= withdrawals@.len(),
            n <= MAX_WITHDRAWALS_PER_PAYLOAD,
            i <= n,
            roots@.len() == i,
            forall|j: int| 0 <= j < i ==> #[trigger] roots@[j]@ == withdrawal_root(withdrawals@[j]),
        decreases n - i,
    {
        roots.push(withdrawals[i].tree_hash_root());
        i = i + 1;
    }
    assert(chunk_views(roots@) =~= withdrawals@.take(n as int).map_values(
        |w: Withdrawal| withdrawal_root(w),
    ));
    ssz_root_list_root_16(roots.as_slice())
}

/// The 32-byte chunk of an integer holds its eight little-endian bytes, byte
/// `i` being bits `8i..8i+8`, followed by 24 zero bytes.
pub proof fn lemma_u64_chunk_layout(x: u64)
    ensures
        u64_chunk(x) == spec_u64_to_le_bytes_open(x) + Seq::new(24, |_i: int| 0u8),
        u64_chunk(x).len() == 32,
{
    spec_u64_to_le_bytes_to_open(x);
}

/// A transaction within the 2^30-byte limit is hashed whole: its leaf root is
/// the root of the byte list holding all of its bytes.
pub proof fn lemma_transaction_hashed_whole(tx: Seq<u8>)
    requires
        tx.len() <= 1073741824,
    ensures
        tx_leaf_root(tx) == byte_list_root(tx),
{
}

/// The leaves of the transactions tree of a payload are the byte-list roots of
/// its whole transactions, in order.
pub proof fn lemma_tx_leaf_roots_whole(txs: Seq<Seq<u8>>)
    requires
        forall|i: int| 0 <= i < txs.len() ==> #[trigger] txs[i].len() <= 1073741824,
    ensures
        tx_leaf_roots(txs) == Seq::new(txs.len(), |i: int| byte_list_root(txs[i])),
{
    assert(tx_leaf_roots(txs) =~= Seq::new(txs.len(), |i: int| byte_list_root(txs[i])));
}

/// A payload of at most 2^20 transactions, each within the 2^30-byte limit,
/// has as transactions root the hash of the depth-20 tree root over the
/// byte-list roots of all its whole transactions, and the little-endian chunk
/// of their number.
pub proof fn lemma_transactions_root_of_listed_payload(txs: Seq<Seq<u8>>)
    requires
        txs.len() <= 1048576,
        forall|i: int| 0 <= i < txs.len() ==> #[trigger] txs[i].len() <= 1073741824,
    ensures
        transactions_root(txs) == sha256(
            merkle_root(Seq::new(txs.len(), |i: int| byte_list_root(txs[i])), 20) + u64_chunk(
                txs.len() as u64,
            ),
        ),
{
    assert(txs.take(txs.len() as int) =~= txs);
    lemma_tx_leaf_roots_whole(txs);
}

/// The hash tree root of a withdrawal: the tree over the chunks of its index,
/// its validator index, its address (the 20 address bytes as given, then 12
/// zero bytes) and its amount.
pub proof fn lemma_withdrawal_root_layout(w: Withdrawal)
    ensures
        withdrawal_root(w) == sha256(
            sha256(u64_chunk(w.index) + u64_chunk(w.validator_index)) + sha256(
                Seq::new(32, |i: int| if i < 20 { w.address@[i] } else { 0u8 }) + u64_chunk(w.amount),
            ),
        ),
{
    assert(address_chunk(w.address@) =~= Seq::new(
        32,
        |i: int| if i < 20 { w.address@[i] } else { 0u8 },
    ));
}

/// A payload of at most 16 withdrawals has as withdrawals root the hash of
/// the depth-4 tree root over the roots of all its withdrawals, in order, and
/// the little-endian chunk of their number.
pub proof fn lemma_withdrawals_root_of_listed_payload(ws: Seq<Withdrawal>)
    requires
        ws.len() <= 16,
    ensures
        withdrawals_root(ws) == sha256(
            merkle_root(Seq::new(ws.len(), |i: int| withdrawal_root(ws[i])), 4) + u64_chunk(
                ws.len() as u64,
            ),
        ),
{
    assert(ws.take(ws.len() as int).map_values(|w: Withdrawal| withdrawal_root(w)) =~= Seq::new(
        ws.len(),
        |i: int| withdrawal_root(ws[i]),
    ));
}

/// A list's root is mixed with its length as the SHA-256 digest of the root
/// followed by the length's chunk.
pub proof fn lemma_mix_in_length_layout(root: Seq<u8>, len: nat)
    ensures
        mix_in_length(root, len) == sha256(root + u64_chunk(len as u64)),
{
}

/// The root of a byte list: the depth-25 tree over its bytes cut into 32-byte
/// chunks (byte `b` of chunk `i` being byte `32i + b` of the list, or zero
/// past its end), mixed with the list's length.
pub proof fn lemma_byte_list_root_layout(data: Seq<u8>)
    ensures
        byte_list_root(data) == sha256(
            merkle_root(
                Seq::new(
                    ((data.len() + 31) / 32) as nat,
                    |i: int|
                        Seq::new(
                            32,
                            |b: int| if 32 * i + b < data.len() { data[32 * i + b] } else { 0u8 },
                        ),
                ),
                25,
            ) + u64_chunk(data.len() as u64),
        ),
{
}

/// A payload's transactions past the first 2^20 do not count towards its
/// transactions root.
pub proof fn lemma_transactions_beyond_limit_ignored(txs: Seq<Seq<u8>>)
    requires
        txs.len() > 1048576,
    ensures
        transactions_root(txs) == transactions_root(txs.take(1048576)),
{
    assert(txs.take(1048576).take(1048576) =~= txs.take(1048576));
}

/// A payload's withdrawals past the first 16 do not count towards its
/// withdrawals root.
pub proof fn lemma_withdrawals_beyond_limit_ignored(ws: Seq<Withdrawal>)
    requires
        ws.len() > 16,
    ensures
        withdrawals_root(ws) == withdrawals_root(ws.take(16)),
{
    assert(ws.take(16).take(16) =~= ws.take(16));
}

} // verus!
