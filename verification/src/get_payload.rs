//! The signed `get_payload_v3` request a relay sends to fetch a stored
//! payload: its SSZ encoding (a fixed-size container of 184 bytes), its
//! decoding, and the hash tree root of its message, which the relay signs.

use crate::byte_copy::copy_into_at;
use crate::hash::{hash_pair, sha256, sha_pair};
use crate::merkle::zero_chunk;
use crate::payload_storage::{PayloadStorage, TimestampedPayload};
use crate::signing::{builder_domain, compute_signing_root, signing_root};
use crate::ssz_roots::{u64_chunk, u64_to_chunk};
use vstd::bytes::{
    lemma_auto_spec_u64_to_from_le_bytes, spec_u64_from_le_bytes, spec_u64_to_le_bytes,
    spec_u64_to_le_bytes_open, spec_u64_to_le_bytes_to_open,
    u64_from_le_bytes, u64_to_le_bytes,
};
use vstd::prelude::*;
use vstd::slice::slice_subrange;

verus! {

/// Length of the SSZ encoding of a signed `get_payload_v3` request.
pub const SIGNED_GET_PAYLOAD_V3_LEN: usize = 184;

/// The message of a `get_payload_v3` request.
#[derive(Clone, Copy, Debug, PartialEq, Eq)]
pub struct GetPayloadV3 {
    pub block_hash: [u8; 32],
    pub request_ts: u64,
    pub relay_public_key: [u8; 48],
}

/// A `get_payload_v3` request with the relay's BLS signature over its message.
#[derive(Clone, Copy, Debug, PartialEq, Eq)]
pub struct SignedGetPayloadV3 {
    pub message: GetPayloadV3,
    pub signature: [u8; 96],
}

/// Why bytes do not decode as a request.
#[derive(Clone, Copy, Debug, PartialEq, Eq)]
pub enum DecodeError {
    /// A fixed-size container was given the wrong number of bytes.
    InvalidByteLength { len: usize, expected: usize },
}

/// The SSZ encoding of a request: its fixed-size fields in order, integers
/// little-endian.
pub open spec fn ssz_encoding(r: SignedGetPayloadV3) -> Seq<u8> {
    r.message.block_hash@ + spec_u64_to_le_bytes(r.message.request_ts) + r.message.relay_public_key@
        + r.signature@
}

/// `r` is what the 184 bytes `bytes` encode.
pub open spec fn decodes_to(bytes: Seq<u8>, r: SignedGetPayloadV3) -> bool {
    &&& r.message.block_hash@ == bytes.subrange(0, 32)
    &&& r.message.request_ts == spec_u64_from_le_bytes(bytes.subrange(32, 40))
    &&& r.message.relay_public_key@ == bytes.subrange(40, 88)
    &&& r.signature@ == bytes.subrange(88, 184)
}

/// The hash tree root of a BLS public key (a 48-byte vector: two chunks).
pub open spec fn public_key_root(key: Seq<u8>) -> Seq<u8> {
    hash_pair(key.take(32), key.skip(32) + Seq::new(16, |_i: int| 0u8))
}

/// The hash tree root of the request message: the root of the tree over its
/// three fields' roots, padded to four leaves.
pub open spec fn get_payload_root(m: GetPayloadV3) -> Seq<u8> {
    hash_pair(
        hash_pair(m.block_hash@, u64_chunk(m.request_ts)),
        hash_pair(public_key_root(m.relay_public_key@), zero_chunk()),
    )
}

impl GetPayloadV3 {
    /// The hash tree root of this message as an SSZ container.
    pub fn tree_hash_root(&self) -> (root: [u8; 32])
        ensures
            root@ == get_payload_root(*self),
    {
        let mut key_low = [0u8; 32];
        let mut key_high = [0u8; 32];
        copy_into_at(&mut key_low, 0, slice_subrange(self.relay_public_key.as_slice(), 0, 32));
        copy_into_at(&mut key_high, 0, slice_subrange(self.relay_public_key.as_slice(), 32, 48));
        assert(key_low@ =~= self.relay_public_key@.take(32));
        assert(key_high@ =~= self.relay_public_key@.skip(32) + Seq::new(16, |_i: int| 0u8));
        let key_root = sha_pair(&key_low, &key_high);
        let zero = [0u8; 32];
        assert(zero@ =~= zero_chunk());
        let left = sha_pair(&self.block_hash, &u64_to_chunk(self.request_ts));
        let right = sha_pair(&key_root, &zero);
        sha_pair(&left, &right)
    }
}

impl SignedGetPayloadV3 {
    /// The root the relay's signature over this request's message signs: the
    /// signing root of the message's hash tree root in the builder domain.
    pub fn signing_root(&self) -> (root: [u8; 32])
        ensures
            root@ == signing_root(get_payload_root(self.message), builder_domain()),
    {
        compute_signing_root(&self.message.tree_hash_root())
    }

    /// The SSZ encoding of this request.
    pub fn as_ssz_bytes(&self) -> (bytes: Vec<u8>)
        ensures
            bytes@ == ssz_encoding(*self),
    {
        let mut bytes: Vec<u8> = Vec::with_capacity(SIGNED_GET_PAYLOAD_V3_LEN);
        bytes.extend_from_slice(self.message.block_hash.as_slice());
        let ts = u64_to_le_bytes(self.message.request_ts);
        bytes.extend_from_slice(ts.as_slice());
        bytes.extend_from_slice(self.message.relay_public_key.as_slice());
        bytes.extend_from_slice(self.signature.as_slice());
        bytes
    }

    /// Decodes a request from its SSZ encoding: exactly 184 bytes, or an error
    /// that gives the length found.
    pub fn from_ssz_bytes(bytes: &[u8]) -> (res: Result<SignedGetPayloadV3, DecodeError>)
        ensures
            res is Ok <==> bytes@.len() == SIGNED_GET_PAYLOAD_V3_LEN,
            res matches Ok(r) ==> decodes_to(bytes@, r),
            res matches Err(e) ==> e == (DecodeError::InvalidByteLength {
                len: bytes@.len() as usize,
                expected: SIGNED_GET_PAYLOAD_V3_LEN,
            }),
    {
        if bytes.len() != SIGNED_GET_PAYLOAD_V3_LEN {
            return Err(
                DecodeError::InvalidByteLength { len: bytes.len(), expected: SIGNED_GET_PAYLOAD_V3_LEN },
            );
        }
        let mut block_hash = [0u8; 32];
        copy_into_at(&mut block_hash, 0, slice_subrange(bytes, 0, 32));
        let request_ts = u64_from_le_bytes(slice_subrange(bytes, 32, 40));
        let mut relay_public_key = [0u8; 48];
        copy_into_at(&mut relay_public_key, 0, slice_subrange(bytes, 40, 88));
        let mut signature = [0u8; 96];
        copy_into_at(&mut signature, 0, slice_subrange(bytes, 88, 184));
        Ok(SignedGetPayloadV3 {
            message: GetPayloadV3 { block_hash, request_ts, relay_public_key },
            signature,
        })
    }
}

/// Decoding undoes encoding: the encoding of any request is 184 bytes that
/// decode to that request.
pub proof fn lemma_decode_encode(r: SignedGetPayloadV3)
    ensures
        ssz_encoding(r).len() == SIGNED_GET_PAYLOAD_V3_LEN,
        decodes_to(ssz_encoding(r), r),
{
    lemma_auto_spec_u64_to_from_le_bytes();
    let b = ssz_encoding(r);
    let ts = spec_u64_to_le_bytes(r.message.request_ts);
    assert(b.subrange(0, 32) =~= r.message.block_hash@);
    assert(b.subrange(32, 40) =~= ts);
    assert(b.subrange(40, 88) =~= r.message.relay_public_key@);
    assert(b.subrange(88, 184) =~= r.signature@);
}

/// Encoding undoes decoding: bytes that decode to a request are that
/// request's encoding.
pub proof fn lemma_encode_decode(bytes: Seq<u8>, r: SignedGetPayloadV3)
    requires
        bytes.len() == SIGNED_GET_PAYLOAD_V3_LEN,
        decodes_to(bytes, r),
    ensures
        ssz_encoding(r) == bytes,
{
    lemma_auto_spec_u64_to_from_le_bytes();
    assert(spec_u64_to_le_bytes(spec_u64_from_le_bytes(bytes.subrange(32, 40))) == bytes.subrange(32, 40));
    assert(ssz_encoding(r) =~= bytes);
}

/// A request's encoding determines it: two requests that the same bytes
/// decode to are equal.
pub proof fn lemma_decoding_unique(bytes: Seq<u8>, r1: SignedGetPayloadV3, r2: SignedGetPayloadV3)
    requires
        decodes_to(bytes, r1),
        decodes_to(bytes, r2),
    ensures
        r1 == r2,
{
    broadcast use vstd::array::group_array_axioms;
    assert(r1.message.block_hash =~= r2.message.block_hash);
    assert(r1.message.relay_public_key =~= r2.message.relay_public_key);
    assert(r1.signature =~= r2.signature);
}

/// The answer to a `get_payload_v3` request.
#[derive(Clone, Debug, PartialEq, Eq)]
pub enum GetPayloadV3Reply {
    /// The SSZ encoding of the requested payload.
    Payload(Vec<u8>),
    /// The request's bytes are no signed request.
    InvalidRequestFormat,
    /// The relay's signature does not verify.
    InvalidSignature,
    /// No payload is stored under the requested block hash.
    PayloadNotFound,
}

impl GetPayloadV3Reply {
    /// The HTTP status of the answer.
    pub fn status_code(&self) -> (code: u16)
        ensures
            self is Payload ==> code == 200,
            self is InvalidRequestFormat ==> code == 400,
            self is InvalidSignature ==> code == 401,
            self is PayloadNotFound ==> code == 404,
    {
        match self {
            GetPayloadV3Reply::Payload(_) => 200,
            GetPayloadV3Reply::InvalidRequestFormat => 400,
            GetPayloadV3Reply::InvalidSignature => 401,
            GetPayloadV3Reply::PayloadNotFound => 404,
        }
    }

    /// The text of a refusal; none for a payload.
    pub fn error_text(&self) -> (text: Option<&'static str>)
        ensures
            self is Payload ==> text is None,
            self is InvalidRequestFormat ==> text == Some("Invalid request format"),
            self is InvalidSignature ==> text == Some("Invalid signature"),
            self is PayloadNotFound ==> text == Some("Payload not found"),
    {
        match self {
            GetPayloadV3Reply::Payload(_) => None,
            GetPayloadV3Reply::InvalidRequestFormat => Some("Invalid request format"),
            GetPayloadV3Reply::InvalidSignature => Some("Invalid signature"),
            GetPayloadV3Reply::PayloadNotFound => Some("Payload not found"),
        }
    }
}

/// `reply` is the answer to `request` (its decoding) from a store holding
/// `stored`, when the relay's signature verifies or not.
pub open spec fn answers(
    reply: GetPayloadV3Reply,
    stored: Map<[u8; 32], TimestampedPayload>,
    request: Result<SignedGetPayloadV3, DecodeError>,
    signature_valid: bool,
) -> bool {
    match request {
        Err(_) => reply == GetPayloadV3Reply::InvalidRequestFormat,
        Ok(r) => if !signature_valid {
            reply == GetPayloadV3Reply::InvalidSignature
        } else if stored.contains_key(r.message.block_hash) {
            (reply matches GetPayloadV3Reply::Payload(p) && p@ == stored[r.message.block_hash].payload@)
        } else {
            reply == GetPayloadV3Reply::PayloadNotFound
        },
    }
}

/// Answers a `get_payload_v3` request, given its decoding and whether the
/// relay's signature over the message verifies: a request that did not
/// decode is refused as malformed, one whose signature does not verify as
/// unauthorized; otherwise the payload stored under the requested block hash
/// is returned, or the request is answered that there is none.
pub fn get_payload_v3_reply(
    storage: &PayloadStorage,
    request: &Result<SignedGetPayloadV3, DecodeError>,
    signature_valid: bool,
) -> (reply: GetPayloadV3Reply)
    ensures
        answers(reply, storage@, *request, signature_valid),
{
    let block_hash = match request {
        Ok(signed_request) => {
            if !signature_valid {
                return GetPayloadV3Reply::InvalidSignature;
            }
            signed_request.message.block_hash
        },
        Err(_) => {
            return GetPayloadV3Reply::InvalidRequestFormat;
        },
    };
    match storage.get_payload(&block_hash) {
        Some(payload) => GetPayloadV3Reply::Payload(payload),
        None => GetPayloadV3Reply::PayloadNotFound,
    }
}

/// The encoding of a request lays its fields out in order: bytes 0..32 are
/// the block hash as given, 32..40 the timestamp little-endian (byte `k` being
/// bits `8k..8k+8`), 40..88 the relay's key and 88..184 the signature.
pub proof fn lemma_encoding_layout(r: SignedGetPayloadV3)
    ensures
        ssz_encoding(r).len() == 184,
        forall|i: int| 0 <= i < 32 ==> #[trigger] ssz_encoding(r)[i] == r.message.block_hash@[i],
        ssz_encoding(r).subrange(32, 40) == spec_u64_to_le_bytes_open(r.message.request_ts),
        forall|i: int| 0 <= i < 48 ==> #[trigger] ssz_encoding(r)[40 + i] == r.message.relay_public_key@[i],
        forall|i: int| 0 <= i < 96 ==> #[trigger] ssz_encoding(r)[88 + i] == r.signature@[i],
{
    lemma_auto_spec_u64_to_from_le_bytes();
    spec_u64_to_le_bytes_to_open(r.message.request_ts);
    let e = ssz_encoding(r);
    assert(e.subrange(32, 40) =~= spec_u64_to_le_bytes(r.message.request_ts));
}

/// Decoding reads the fields from their places: a decoded request's block
/// hash is bytes 0..32 as given, its timestamp the little-endian number in
/// bytes 32..40, its key bytes 40..88 and its signature bytes 88..184.
pub proof fn lemma_decoding_layout(bytes: Seq<u8>, r: SignedGetPayloadV3)
    requires
        bytes.len() == 184,
        decodes_to(bytes, r),
    ensures
        forall|i: int| 0 <= i < 32 ==> #[trigger] r.message.block_hash@[i] == bytes[i],
        spec_u64_to_le_bytes_open(r.message.request_ts) == bytes.subrange(32, 40),
        forall|i: int| 0 <= i < 48 ==> #[trigger] r.message.relay_public_key@[i] == bytes[40 + i],
        forall|i: int| 0 <= i < 96 ==> #[trigger] r.signature@[i] == bytes[88 + i],
{
    lemma_auto_spec_u64_to_from_le_bytes();
    spec_u64_to_le_bytes_to_open(r.message.request_ts);
    assert(spec_u64_to_le_bytes(spec_u64_from_le_bytes(bytes.subrange(32, 40))) == bytes.subrange(32, 40));
    assert forall|i: int| 0 <= i < 32 implies #[trigger] r.message.block_hash@[i] == bytes[i] by {
        assert(r.message.block_hash@[i] == bytes.subrange(0, 32)[i]);
    }
    assert forall|i: int| 0 <= i < 48 implies #[trigger] r.message.relay_public_key@[i] == bytes[40 + i] by {
        assert(r.message.relay_public_key@[i] == bytes.subrange(40, 88)[i]);
    }
    assert forall|i: int| 0 <= i < 96 implies #[trigger] r.signature@[i] == bytes[88 + i] by {
        assert(r.signature@[i] == bytes.subrange(88, 184)[i]);
    }
}

/// The hash tree root of a request message: the tree over the block hash as
/// given, the timestamp's chunk, the root of the relay's key (its first 32
/// bytes hashed with its last 16 padded with zeros) and a zero chunk.
pub proof fn lemma_message_root_layout(m: GetPayloadV3)
    ensures
        get_payload_root(m) == sha256(
            sha256(m.block_hash@ + u64_chunk(m.request_ts)) + sha256(
                sha256(
                    Seq::new(32, |i: int| m.relay_public_key@[i]) + Seq::new(
                        32,
                        |i: int| if i < 16 { m.relay_public_key@[32 + i] } else { 0u8 },
                    ),
                ) + Seq::new(32, |_i: int| 0u8),
            ),
        ),
{
    let key = m.relay_public_key@;
    assert(key.take(32) =~= Seq::new(32, |i: int| key[i]));
    assert(key.skip(32) + Seq::new(16, |_i: int| 0u8) =~= Seq::new(
        32,
        |i: int| if i < 16 { key[32 + i] } else { 0u8 },
    ));
    assert(zero_chunk() =~= Seq::new(32, |_i: int| 0u8));
}

/// A request that did not decode is answered as malformed; a decoded one
/// whose signature does not verify as unauthorized; a verified one with the
/// payload stored under its block hash, or with "not found" when there is
/// none.
pub proof fn lemma_answers(
    reply: GetPayloadV3Reply,
    stored: Map<[u8; 32], TimestampedPayload>,
    request: Result<SignedGetPayloadV3, DecodeError>,
    signature_valid: bool,
)
    requires
        answers(reply, stored, request, signature_valid),
    ensures
        request is Err ==> reply == GetPayloadV3Reply::InvalidRequestFormat,
        request is Ok && !signature_valid ==> reply == GetPayloadV3Reply::InvalidSignature,
        request is Ok && signature_valid && !stored.contains_key(request->Ok_0.message.block_hash)
            ==> reply == GetPayloadV3Reply::PayloadNotFound,
        request is Ok && signature_valid && stored.contains_key(request->Ok_0.message.block_hash)
            ==> (reply is Payload && reply->Payload_0@ == stored[request->Ok_0.message.block_hash].payload@),
{
}

} // verus!
