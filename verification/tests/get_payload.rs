use alloy_primitives::{FixedBytes, B256};
use rbuilder::get_payload::{
    get_payload_v3_reply, DecodeError, GetPayloadV3, GetPayloadV3Reply, SignedGetPayloadV3,
};
use rbuilder::payload_storage::PayloadStorage;
use rbuilder::signing::compute_signing_root;
use ssz::Encode;
use tree_hash::{MerkleHasher, TreeHash};

fn request() -> SignedGetPayloadV3 {
    let mut key = [0u8; 48];
    for (i, b) in key.iter_mut().enumerate() {
        *b = i as u8;
    }
    let mut signature = [0u8; 96];
    for (i, b) in signature.iter_mut().enumerate() {
        *b = 255 - i as u8;
    }
    SignedGetPayloadV3 {
        message: GetPayloadV3 { block_hash: [0xab; 32], request_ts: 1_700_000_000_123, relay_public_key: key },
        signature,
    }
}

fn reference_encoding(r: &SignedGetPayloadV3) -> Vec<u8> {
    let mut out = B256::from(r.message.block_hash).as_ssz_bytes();
    out.extend(r.message.request_ts.as_ssz_bytes());
    out.extend(FixedBytes::<48>::from(r.message.relay_public_key).as_ssz_bytes());
    out.extend(FixedBytes::<96>::from(r.signature).as_ssz_bytes());
    out
}

fn reference_message_root(m: &GetPayloadV3) -> [u8; 32] {
    let mut hasher = MerkleHasher::with_leaves(3);
    hasher.write(B256::from(m.block_hash).tree_hash_root().as_slice()).unwrap();
    hasher.write(m.request_ts.tree_hash_root().as_slice()).unwrap();
    hasher.write(FixedBytes::<48>::from(m.relay_public_key).tree_hash_root().as_slice()).unwrap();
    hasher.finish().unwrap().0
}

#[test]
fn encoding_is_ssz_layout() {
    let r = request();
    let bytes = r.as_ssz_bytes();
    assert_eq!(bytes.len(), 184);
    assert_eq!(bytes, reference_encoding(&r));
}

#[test]
fn decode_undoes_encode() {
    let r = request();
    assert_eq!(SignedGetPayloadV3::from_ssz_bytes(&r.as_ssz_bytes()), Ok(r));
}

#[test]
fn encode_undoes_decode() {
    let bytes: Vec<u8> = (0..184u32).map(|i| (i * 7 % 256) as u8).collect();
    let r = SignedGetPayloadV3::from_ssz_bytes(&bytes).unwrap();
    assert_eq!(r.as_ssz_bytes(), bytes);
    assert_eq!(r.message.request_ts, u64::from_le_bytes(bytes[32..40].try_into().unwrap()));
}

#[test]
fn decode_rejects_wrong_length() {
    assert_eq!(
        SignedGetPayloadV3::from_ssz_bytes(&[0u8; 183]),
        Err(DecodeError::InvalidByteLength { len: 183, expected: 184 })
    );
    assert_eq!(
        SignedGetPayloadV3::from_ssz_bytes(&[0u8; 185]),
        Err(DecodeError::InvalidByteLength { len: 185, expected: 184 })
    );
    assert_eq!(
        SignedGetPayloadV3::from_ssz_bytes(&[]),
        Err(DecodeError::InvalidByteLength { len: 0, expected: 184 })
    );
}

#[test]
fn message_root_matches_container_hashing() {
    let r = request();
    assert_eq!(r.message.tree_hash_root(), reference_message_root(&r.message));
}

#[test]
fn request_signing_root() {
    let r = request();
    assert_eq!(r.signing_root(), compute_signing_root(&reference_message_root(&r.message)));
}

#[test]
fn reply_to_malformed_request() {
    let storage = PayloadStorage::new();
    let decoded = SignedGetPayloadV3::from_ssz_bytes(&[1, 2, 3]);
    let reply = get_payload_v3_reply(&storage, &decoded, true);
    assert_eq!(reply, GetPayloadV3Reply::InvalidRequestFormat);
    assert_eq!(reply.status_code(), 400);
    assert_eq!(reply.error_text(), Some("Invalid request format"));
}

#[test]
fn reply_to_bad_signature() {
    let mut storage = PayloadStorage::new();
    let r = request();
    storage.store_payload(r.message.block_hash, vec![1, 2, 3], 0);
    let reply = get_payload_v3_reply(&storage, &Ok(r), false);
    assert_eq!(reply, GetPayloadV3Reply::InvalidSignature);
    assert_eq!(reply.status_code(), 401);
    assert_eq!(reply.error_text(), Some("Invalid signature"));
}

#[test]
fn reply_with_stored_payload() {
    let mut storage = PayloadStorage::new();
    let r = request();
    storage.store_payload(r.message.block_hash, vec![9, 8, 7], 5);
    let reply = get_payload_v3_reply(&storage, &Ok(r), true);
    assert_eq!(reply, GetPayloadV3Reply::Payload(vec![9, 8, 7]));
    assert_eq!(reply.status_code(), 200);
    assert_eq!(reply.error_text(), None);
}

#[test]
fn reply_when_payload_missing() {
    let mut storage = PayloadStorage::new();
    storage.store_payload([0x01; 32], vec![9], 5);
    let reply = get_payload_v3_reply(&storage, &Ok(request()), true);
    assert_eq!(reply, GetPayloadV3Reply::PayloadNotFound);
    assert_eq!(reply.status_code(), 404);
    assert_eq!(reply.error_text(), Some("Payload not found"));
}
