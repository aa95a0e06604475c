//! The adjustable header submission: a block's header, with the roots of its
//! transactions and withdrawals, sent to a relay together with the data the
//! relay needs to adjust the block's final payment.

use crate::ssz_roots::{
    byte_seqs, compute_transactions_root, compute_withdrawals_root, transactions_root,
    withdrawals_root, Withdrawal,
};
use alloy_rpc_types_beacon::relay::BidTrace;
use alloy_rpc_types_beacon::requests::ExecutionRequestsV4;
use vstd::prelude::*;

verus! {

#[verifier::external_type_specification]
#[verifier::external_body]
pub struct ExBidTrace(BidTrace);

#[verifier::external_type_specification]
#[verifier::external_body]
pub struct ExExecutionRequestsV4(ExecutionRequestsV4);

/// The data a relay needs to adjust a block: the roots and merkle proofs
/// around the placeholder transaction that pays the proposer.
#[derive(Clone, Debug, PartialEq, Eq)]
pub struct AdjustmentDataV2 {
    pub el_transactions_root: [u8; 32],
    pub el_withdrawals_root: [u8; 32],
    pub builder_address: [u8; 20],
    pub builder_proof: Vec<Vec<u8>>,
    pub fee_recipient_address: [u8; 20],
    pub fee_recipient_proof: Vec<Vec<u8>>,
    pub fee_payer_address: [u8; 20],
    pub fee_payer_proof: Vec<Vec<u8>>,
    pub el_placeholder_transaction_proof: Vec<Vec<u8>>,
    pub cl_placeholder_transaction_proof: Vec<[u8; 32]>,
    pub placeholder_receipt_proof: Vec<Vec<u8>>,
    pub pre_payment_logs_bloom: [u8; 256],
}

/// The Deneb execution payload header. `base_fee_per_gas` is a 256-bit
/// integer as four 64-bit limbs, least significant first.
#[derive(Clone, Debug, PartialEq, Eq)]
pub struct ExecutionPayloadHeaderV3 {
    pub parent_hash: [u8; 32],
    pub fee_recipient: [u8; 20],
    pub state_root: [u8; 32],
    pub receipts_root: [u8; 32],
    pub logs_bloom: [u8; 256],
    pub prev_randao: [u8; 32],
    pub block_number: u64,
    pub gas_limit: u64,
    pub gas_used: u64,
    pub timestamp: u64,
    pub extra_data: Vec<u8>,
    pub base_fee_per_gas: [u64; 4],
    pub block_hash: [u8; 32],
    pub transactions_root: [u8; 32],
    pub withdrawals_root: [u8; 32],
    pub blob_gas_used: u64,
    pub excess_blob_gas: u64,
}

/// The header submission a relay can adjust.
#[derive(Debug)]
pub struct AdjustableHeaderSubmissionV4 {
    pub bid_trace: BidTrace,
    pub execution_payload_header: ExecutionPayloadHeaderV3,
    pub execution_requests: ExecutionRequestsV4,
    pub commitments: Vec<[u8; 48]>,
    pub adjustment_data: AdjustmentDataV2,
}

/// A message with the builder's BLS signature.
#[derive(Debug)]
pub struct SignedMessage<T> {
    pub message: T,
    pub signature: [u8; 96],
}

/// The signed adjustable header submission.
pub type SignedAdjustableHeaderSubmissionV4 = SignedMessage<AdjustableHeaderSubmissionV4>;

/// A header submission with the URL it goes to and the block's number of
/// transactions.
#[derive(Debug)]
pub struct HeaderSubmissionV3 {
    pub url: Vec<u8>,
    pub tx_count: u32,
    pub submission: SignedAdjustableHeaderSubmissionV4,
}

/// The execution payload of an Electra block submission, its fields flattened.
/// `base_fee_per_gas` is a 256-bit integer as four 64-bit limbs, least
/// significant first.
#[derive(Clone, Debug, PartialEq, Eq)]
pub struct ExecutionPayloadV3 {
    pub parent_hash: [u8; 32],
    pub fee_recipient: [u8; 20],
    pub state_root: [u8; 32],
    pub receipts_root: [u8; 32],
    pub logs_bloom: [u8; 256],
    pub prev_randao: [u8; 32],
    pub block_number: u64,
    pub gas_limit: u64,
    pub gas_used: u64,
    pub timestamp: u64,
    pub extra_data: Vec<u8>,
    pub base_fee_per_gas: [u64; 4],
    pub block_hash: [u8; 32],
    pub transactions: Vec<Vec<u8>>,
    pub withdrawals: Vec<Withdrawal>,
    pub blob_gas_used: u64,
    pub excess_blob_gas: u64,
}

/// An Electra block submission with the data to adjust it.
#[derive(Debug)]
pub struct ElectraSubmitBlockRequest {
    pub message: BidTrace,
    pub execution_payload: ExecutionPayloadV3,
    pub commitments: Vec<[u8; 48]>,
    pub execution_requests: ExecutionRequestsV4,
    pub signature: [u8; 96],
    pub adjustment_data: AdjustmentDataV2,
}

/// `h` is the header of payload `p`: every field copied, and the roots of its
/// transactions and withdrawals.
pub open spec fn is_header_of(h: ExecutionPayloadHeaderV3, p: ExecutionPayloadV3) -> bool {
    &&& h.parent_hash == p.parent_hash
    &&& h.fee_recipient == p.fee_recipient
    &&& h.state_root == p.state_root
    &&& h.receipts_root == p.receipts_root
    &&& h.logs_bloom == p.logs_bloom
    &&& h.prev_randao == p.prev_randao
    &&& h.block_number == p.block_number
    &&& h.gas_limit == p.gas_limit
    &&& h.gas_used == p.gas_used
    &&& h.timestamp == p.timestamp
    &&& h.extra_data == p.extra_data
    &&& h.base_fee_per_gas == p.base_fee_per_gas
    &&& h.block_hash == p.block_hash
    &&& h.transactions_root@ == transactions_root(byte_seqs(p.transactions@))
    &&& h.withdrawals_root@ == withdrawals_root(p.withdrawals@)
    &&& h.blob_gas_used == p.blob_gas_used
    &&& h.excess_blob_gas == p.excess_blob_gas
}

/// The header of an execution payload.
pub fn execution_payload_header(payload: ExecutionPayloadV3) -> (header: ExecutionPayloadHeaderV3)
    ensures
        is_header_of(header, payload),
        header.parent_hash == payload.parent_hash,
        header.fee_recipient == payload.fee_recipient,
        header.state_root == payload.state_root,
        header.receipts_root == payload.receipts_root,
        header.logs_bloom == payload.logs_bloom,
        header.prev_randao == payload.prev_randao,
        header.block_number == payload.block_number,
        header.gas_limit == payload.gas_limit,
        header.gas_used == payload.gas_used,
        header.timestamp == payload.timestamp,
        header.extra_data == payload.extra_data,
        header.base_fee_per_gas == payload.base_fee_per_gas,
        header.block_hash == payload.block_hash,
        header.transactions_root@ == transactions_root(byte_seqs(payload.transactions@)),
        header.withdrawals_root@ == withdrawals_root(payload.withdrawals@),
        header.blob_gas_used == payload.blob_gas_used,
        header.excess_blob_gas == payload.excess_blob_gas,
{
    let transactions_root = compute_transactions_root(payload.transactions.as_slice());
    let withdrawals_root = compute_withdrawals_root(payload.withdrawals.as_slice());
    ExecutionPayloadHeaderV3 {
        parent_hash: payload.parent_hash,
        fee_recipient: payload.fee_recipient,
        state_root: payload.state_root,
        receipts_root: payload.receipts_root,
        logs_bloom: payload.logs_bloom,
        prev_randao: payload.prev_randao,
        block_number: payload.block_number,
        gas_limit: payload.gas_limit,
        gas_used: payload.gas_used,
        timestamp: payload.timestamp,
        extra_data: payload.extra_data,
        base_fee_per_gas: payload.base_fee_per_gas,
        block_hash: payload.block_hash,
        transactions_root,
        withdrawals_root,
        blob_gas_used: payload.blob_gas_used,
        excess_blob_gas: payload.excess_blob_gas,
    }
}

/// The signed adjustable header submission of an Electra block submission:
/// the payload replaced by its header, everything else carried over.
pub fn signed_adjustable_header_submission(s: ElectraSubmitBlockRequest) -> (signed: SignedAdjustableHeaderSubmissionV4)
    ensures
        signed.message.bid_trace == s.message,
        is_header_of(signed.message.execution_payload_header, s.execution_payload),
        signed.message.execution_requests == s.execution_requests,
        signed.message.commitments == s.commitments,
        signed.message.adjustment_data == s.adjustment_data,
        signed.signature == s.signature,
{
    let bid_trace = s.message;
    let execution_payload_header = execution_payload_header(s.execution_payload);
    let execution_requests = s.execution_requests;
    let commitments = s.commitments;
    let adjustment_data = s.adjustment_data;

    let message = AdjustableHeaderSubmissionV4 {
        bid_trace,
        execution_payload_header,
        execution_requests,
        commitments,
        adjustment_data,
    };
    let signature = s.signature;

    SignedMessage { message, signature }
}

/// A header of a payload carries each of the payload's fields under the same
/// name, and the transactions and withdrawals roots of the payload's
/// transactions and withdrawals.
pub proof fn lemma_header_copies_payload(h: ExecutionPayloadHeaderV3, p: ExecutionPayloadV3)
    requires
        is_header_of(h, p),
    ensures
        h.parent_hash == p.parent_hash,
        h.fee_recipient == p.fee_recipient,
        h.state_root == p.state_root,
        h.receipts_root == p.receipts_root,
        h.logs_bloom == p.logs_bloom,
        h.prev_randao == p.prev_randao,
        h.block_number == p.block_number,
        h.gas_limit == p.gas_limit,
        h.gas_used == p.gas_used,
        h.timestamp == p.timestamp,
        h.extra_data == p.extra_data,
        h.base_fee_per_gas == p.base_fee_per_gas,
        h.block_hash == p.block_hash,
        h.transactions_root@ == transactions_root(byte_seqs(p.transactions@)),
        h.withdrawals_root@ == withdrawals_root(p.withdrawals@),
        h.blob_gas_used == p.blob_gas_used,
        h.excess_blob_gas == p.excess_blob_gas,
{
}

} // verus!
