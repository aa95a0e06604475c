use alloy_rpc_types_beacon::relay::BidTrace;
use alloy_rpc_types_beacon::requests::ExecutionRequestsV4;
use rbuilder::adjustment::{
    execution_payload_header, signed_adjustable_header_submission, AdjustmentDataV2,
    ElectraSubmitBlockRequest, ExecutionPayloadV3,
};
use rbuilder::ssz_roots::{compute_transactions_root, compute_withdrawals_root, Withdrawal};

fn payload() -> ExecutionPayloadV3 {
    ExecutionPayloadV3 {
        parent_hash: [1; 32],
        fee_recipient: [2; 20],
        state_root: [3; 32],
        receipts_root: [4; 32],
        logs_bloom: [5; 256],
        prev_randao: [6; 32],
        block_number: 7,
        gas_limit: 30_000_000,
        gas_used: 21_000,
        timestamp: 1_700_000_000,
        extra_data: b"builder".to_vec(),
        base_fee_per_gas: [7, 0, 0, 0],
        block_hash: [8; 32],
        transactions: vec![vec![0x02, 0x01], vec![0x02, 0x03, 0x04]],
        withdrawals: vec![Withdrawal { index: 1, validator_index: 2, address: [3; 20], amount: 4 }],
        blob_gas_used: 131_072,
        excess_blob_gas: 0,
    }
}

fn adjustment_data() -> AdjustmentDataV2 {
    AdjustmentDataV2 {
        el_transactions_root: [9; 32],
        el_withdrawals_root: [10; 32],
        builder_address: [11; 20],
        builder_proof: vec![vec![1, 2]],
        fee_recipient_address: [12; 20],
        fee_recipient_proof: vec![],
        fee_payer_address: [13; 20],
        fee_payer_proof: vec![vec![3]],
        el_placeholder_transaction_proof: vec![vec![4, 5, 6]],
        cl_placeholder_transaction_proof: vec![[14; 32]],
        placeholder_receipt_proof: vec![],
        pre_payment_logs_bloom: [15; 256],
    }
}

#[test]
fn header_copies_fields_and_computes_roots() {
    let p = payload();
    let header = execution_payload_header(p.clone());
    assert_eq!(header.parent_hash, p.parent_hash);
    assert_eq!(header.fee_recipient, p.fee_recipient);
    assert_eq!(header.state_root, p.state_root);
    assert_eq!(header.receipts_root, p.receipts_root);
    assert_eq!(header.logs_bloom, p.logs_bloom);
    assert_eq!(header.prev_randao, p.prev_randao);
    assert_eq!(header.block_number, 7);
    assert_eq!(header.gas_limit, 30_000_000);
    assert_eq!(header.gas_used, 21_000);
    assert_eq!(header.timestamp, 1_700_000_000);
    assert_eq!(header.extra_data, b"builder".to_vec());
    assert_eq!(header.base_fee_per_gas, [7, 0, 0, 0]);
    assert_eq!(header.block_hash, p.block_hash);
    assert_eq!(header.transactions_root, compute_transactions_root(&p.transactions));
    assert_eq!(header.withdrawals_root, compute_withdrawals_root(&p.withdrawals));
    assert_eq!(header.blob_gas_used, 131_072);
    assert_eq!(header.excess_blob_gas, 0);
}

#[test]
fn submission_carries_everything_but_the_payload() {
    let bid_trace = BidTrace { slot: 42, gas_used: 21_000, ..Default::default() };
    let request = ElectraSubmitBlockRequest {
        message: bid_trace.clone(),
        execution_payload: payload(),
        commitments: vec![[0xc0; 48]],
        execution_requests: ExecutionRequestsV4::default(),
        signature: [0x51; 96],
        adjustment_data: adjustment_data(),
    };
    let signed = signed_adjustable_header_submission(request);
    assert_eq!(signed.message.bid_trace, bid_trace);
    assert_eq!(signed.message.execution_requests, ExecutionRequestsV4::default());
    assert_eq!(signed.message.commitments, vec![[0xc0; 48]]);
    assert_eq!(signed.message.adjustment_data, adjustment_data());
    assert_eq!(signed.signature, [0x51; 96]);
    assert_eq!(signed.message.execution_payload_header.block_hash, [8; 32]);
    assert_eq!(
        signed.message.execution_payload_header.transactions_root,
        compute_transactions_root(&payload().transactions)
    );
}
