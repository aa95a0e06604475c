//! Verified core of a block builder's relay-facing logic: SHA-256 based SSZ
//! merkleization, the transactions-root merkle branch used to adjust a block's
//! last transaction, the adjustable header submission, the signed
//! `get_payload_v3` request format with its signing root, and the in-memory
//! store of submitted payloads.

pub mod adjustment;
pub mod byte_copy;
pub mod get_payload;
pub mod hash;
pub mod merkle;
pub mod payload_storage;
pub mod signing;
pub mod ssz_roots;
pub mod tx_proof;
