//! In-memory store of submitted payloads, keyed by block hash, each with the
//! time it was stored, from which payloads older than two minutes are removed.
//! Times are milliseconds of a monotonic clock that the caller reads.

use dashmap::DashMap;
use std::collections::hash_map::RandomState;
use vstd::prelude::*;

verus! {

#[verifier::external_type_specification]
#[verifier::external_body]
#[verifier::reject_recursive_types(K)]
#[verifier::reject_recursive_types(V)]
#[verifier::reject_recursive_types(S)]
pub struct ExDashMap<K, V, S>(DashMap<K, V, S>);

/// How long a payload stays stored: two minutes.
pub const PAYLOAD_TTL_MS: u64 = 120000;

/// A stored payload (its SSZ encoding) with the time it was stored.
#[derive(Clone, Debug)]
pub struct TimestampedPayload {
    pub payload: Vec<u8>,
    pub stored_at: u64,
}

/// The concurrent map that holds the stored payloads.
pub type PayloadMap = DashMap<[u8; 32], TimestampedPayload, RandomState>;

/// The entries of a map of stored payloads, by block hash.
pub uninterp spec fn stored_payloads(store: PayloadMap) -> Map<[u8; 32], TimestampedPayload>;

/// Calls `dashmap::DashMap::new`.
///
/// Trusted: the new map holds no entry.
#[verifier::external_body]
fn new_payload_map() -> (created: PayloadMap)
    ensures
        stored_payloads(created) == no_payloads(),
{
    DashMap::new()
}

/// Calls `dashmap::DashMap::insert`.
///
/// Trusted: afterwards the map holds `value` under `key` (replacing what it
/// held there) and is otherwise unchanged.
#[verifier::external_body]
fn payload_map_insert(
    store: &mut PayloadMap,
    key: [u8; 32],
    value: TimestampedPayload,
)
    ensures
        stored_payloads(*final(store)) == stored_payloads(*old(store)).insert(key, value),
{
    store.insert(key, value);
}

/// Calls `dashmap::DashMap::get`, and clones the payload of the entry found.
///
/// Trusted: the payload held under `key`, if the map holds an entry there.
#[verifier::external_body]
fn payload_map_get(store: &PayloadMap, key: &[u8; 32]) -> (payload: Option<Vec<u8>>)
    ensures
        payload is Some <==> stored_payloads(*store).contains_key(*key),
        payload matches Some(p) ==> p@ == stored_payloads(*store)[*key].payload@,
{
    store.get(key).map(|entry| entry.payload.clone())
}

/// Calls `dashmap::DashMap::len`.
///
/// Trusted: the number of entries of the map.
#[verifier::external_body]
fn payload_map_len(store: &PayloadMap) -> (n: usize)
    ensures
        n == stored_payloads(*store).len(),
{
    store.len()
}

/// Calls `dashmap::DashMap::retain`, keeping the entries at most two
/// minutes old at `now`.
///
/// Trusted: afterwards the map holds exactly the entries for which
/// `is_payload_fresh` holds, unchanged.
#[verifier::external_body]
fn payload_map_retain_fresh(store: &mut PayloadMap, now: u64)
    ensures
        stored_payloads(*final(store)) == fresh_payloads(stored_payloads(*old(store)), now),
{
    store.retain(|_key, value| is_payload_fresh(value.stored_at, now));
}

/// Calls `dashmap::DashMap::iter`, and collects each entry's key and a clone
/// of its payload.
///
/// Trusted: one element for each entry of the map, in an order that the
/// source leaves open.
#[verifier::external_body]
fn payload_map_entries(store: &PayloadMap) -> (entries: Vec<([u8; 32], Vec<u8>)>)
    ensures
        lists_payloads(entries@, stored_payloads(*store)),
{
    store.iter().map(|entry| (*entry.key(), entry.value().payload.clone())).collect()
}

/// The map with no entry.
pub open spec fn no_payloads() -> Map<[u8; 32], TimestampedPayload> {
    Map::empty()
}

/// A payload stored at `stored_at` is still kept at `now`: it is at most two
/// minutes old.
pub open spec fn payload_is_fresh(stored_at: u64, now: u64) -> bool {
    stored_at as int >= now as int - PAYLOAD_TTL_MS as int
}

/// The entries of `m` still fresh at `now`.
pub open spec fn fresh_payloads(m: Map<[u8; 32], TimestampedPayload>, now: u64) -> Map<[u8; 32], TimestampedPayload> {
    Map::new(|k: [u8; 32]| m.contains_key(k) && payload_is_fresh(m[k].stored_at, now), |k: [u8; 32]| m[k])
}

/// `entries` lists each entry of `m` once, with its payload.
pub open spec fn lists_payloads(entries: Seq<([u8; 32], Vec<u8>)>, m: Map<[u8; 32], TimestampedPayload>) -> bool {
    &&& forall|i: int|
        0 <= i < entries.len() ==> #[trigger] m.contains_key(entries[i].0) && entries[i].1@
            == m[entries[i].0].payload@
    &&& forall|i: int, j: int| 0 <= i < j < entries.len() ==> entries[i].0 != entries[j].0
    &&& forall|k: [u8; 32]| #[trigger] m.contains_key(k) ==> exists|i: int| 0 <= i < entries.len() && entries[i].0 == k
}

/// Whether a payload stored at `stored_at` is still kept at `now`.
pub fn is_payload_fresh(stored_at: u64, now: u64) -> (fresh: bool)
    ensures
        fresh == payload_is_fresh(stored_at, now),
{
    if now < PAYLOAD_TTL_MS {
        true
    } else {
        stored_at >= now - PAYLOAD_TTL_MS
    }
}

/// The store of submitted payloads.
pub struct PayloadStorage {
    payloads: PayloadMap,
}

impl View for PayloadStorage {
    type V = Map<[u8; 32], TimestampedPayload>;

    closed spec fn view(&self) -> Map<[u8; 32], TimestampedPayload> {
        stored_payloads(self.payloads)
    }
}

impl PayloadStorage {
    /// An empty store.
    pub fn new() -> (storage: PayloadStorage)
        ensures
            storage@ == no_payloads(),
            storage@.dom().finite(),
    {
        let storage = PayloadStorage { payloads: new_payload_map() };
        assert(storage@.dom() =~= Set::<[u8; 32]>::empty());
        storage
    }

    /// Stores `payload` under `block_hash`, stamped with the time `now`,
    /// replacing any payload stored there before.
    pub fn store_payload(&mut self, block_hash: [u8; 32], payload: Vec<u8>, now: u64)
        requires
            old(self)@.dom().finite(),
        ensures
            final(self)@ == old(self)@.insert(block_hash, TimestampedPayload { payload, stored_at: now }),
            final(self)@.dom().finite(),
    {
        let timestamped = TimestampedPayload { payload, stored_at: now };
        payload_map_insert(&mut self.payloads, block_hash, timestamped);
    }

    /// The payload stored under `block_hash`, if any.
    pub fn get_payload(&self, block_hash: &[u8; 32]) -> (payload: Option<Vec<u8>>)
        ensures
            payload is Some <==> self@.contains_key(*block_hash),
            payload matches Some(p) ==> p@ == self@[*block_hash].payload@,
    {
        payload_map_get(&self.payloads, block_hash)
    }

    /// All stored payloads with their block hashes, each once.
    pub fn get_all_payloads(&self) -> (entries: Vec<([u8; 32], Vec<u8>)>)
        ensures
            lists_payloads(entries@, self@),
    {
        payload_map_entries(&self.payloads)
    }

    /// The number of stored payloads.
    pub fn get_payload_count(&self) -> (n: usize)
        requires
            self@.dom().finite(),
        ensures
            n == self@.len(),
    {
        payload_map_len(&self.payloads)
    }

    /// Removes the payloads older than two minutes at `now`.
    pub fn cleanup_expired_payloads(&mut self, now: u64)
        requires
            old(self)@.dom().finite(),
        ensures
            final(self)@ == fresh_payloads(old(self)@, now),
            final(self)@.dom().finite(),
    {
        proof {
            lemma_cleanup_shrinks(old(self)@, now);
        }
        payload_map_retain_fresh(&mut self.payloads, now);
    }
}

/// What is stored can be read back: after a payload is stored under a block
/// hash, the store holds exactly that payload there, stamped with the time of
/// storing, and every other entry is unchanged.
pub proof fn lemma_get_after_store(
    m: Map<[u8; 32], TimestampedPayload>,
    block_hash: [u8; 32],
    payload: Vec<u8>,
    now: u64,
    other: [u8; 32],
)
    ensures
        ({
            let stored = m.insert(block_hash, TimestampedPayload { payload, stored_at: now });
            &&& stored.contains_key(block_hash)
            &&& stored[block_hash].payload@ == payload@
            &&& stored[block_hash].stored_at == now
            &&& other != block_hash ==> (stored.contains_key(other) == m.contains_key(other)
                && stored[other] == m[other])
        }),
{
}

/// Storing under a new block hash adds one payload to the count; storing
/// under a block hash already present replaces its payload and leaves the
/// count unchanged.
pub proof fn lemma_count_after_store(
    m: Map<[u8; 32], TimestampedPayload>,
    block_hash: [u8; 32],
    value: TimestampedPayload,
)
    requires
        m.dom().finite(),
    ensures
        m.insert(block_hash, value).dom().finite(),
        !m.contains_key(block_hash) ==> m.insert(block_hash, value).len() == m.len() + 1,
        m.contains_key(block_hash) ==> m.insert(block_hash, value).len() == m.len(),
{
    if m.contains_key(block_hash) {
        assert(m.insert(block_hash, value).dom() =~= m.dom());
    }
}

/// A payload survives every cleanup up to two minutes after it was stored,
/// and no cleanup afterwards.
pub proof fn lemma_cleanup_keeps_recent(m: Map<[u8; 32], TimestampedPayload>, block_hash: [u8; 32], now: u64)
    requires
        m.contains_key(block_hash),
    ensures
        fresh_payloads(m, now).contains_key(block_hash) <==> m[block_hash].stored_at as int + PAYLOAD_TTL_MS as int >= now as int,
        fresh_payloads(m, now).contains_key(block_hash) ==> fresh_payloads(m, now)[block_hash] == m[block_hash],
{
}

/// Cleaning up twice at the same time removes nothing more, and a cleanup
/// at a later time removes what an earlier one removed: cleaning up at `t1`
/// then at `t2 >= t1` is cleaning up at `t2`.
pub proof fn lemma_cleanup_composes(m: Map<[u8; 32], TimestampedPayload>, t1: u64, t2: u64)
    requires
        t1 <= t2,
    ensures
        fresh_payloads(fresh_payloads(m, t1), t2) == fresh_payloads(m, t2),
        fresh_payloads(fresh_payloads(m, t2), t2) == fresh_payloads(m, t2),
{
    assert(fresh_payloads(fresh_payloads(m, t1), t2) =~= fresh_payloads(m, t2));
    assert(fresh_payloads(fresh_payloads(m, t2), t2) =~= fresh_payloads(m, t2));
}

/// Cleanup only removes payloads: what remains is a part of what was stored,
/// so the count never grows.
pub proof fn lemma_cleanup_shrinks(m: Map<[u8; 32], TimestampedPayload>, now: u64)
    requires
        m.dom().finite(),
    ensures
        fresh_payloads(m, now).dom().finite(),
        fresh_payloads(m, now).len() <= m.len(),
        fresh_payloads(m, now) <= m,
{
    assert(fresh_payloads(m, now).dom() <= m.dom());
    vstd::set_lib::lemma_len_subset(fresh_payloads(m, now).dom(), m.dom());
}

/// A payload is kept exactly while it is at most two minutes (120 000 ms)
/// old.
pub proof fn lemma_freshness_boundary(stored_at: u64, now: u64)
    ensures
        payload_is_fresh(stored_at, now) <==> stored_at as int + 120000 >= now as int,
{
}

} // verus!
