# rbuilder relay-facing core, verified with Verus

`src/` is the verified library:

- `byte_copy` — the verified byte copy into fixed-size arrays that the other modules share.
- `hash` — SHA-256 (through the `sha2` crate) and the hash of two 32-byte nodes.
- `merkle` — binary merkle trees over 32-byte chunks as SSZ builds them: nodes,
  roots, authentication paths, and the lemmas that a path recomputes the root
  and does not depend on the leaf it proves.
- `ssz_roots` — the SSZ roots of a payload's transactions list and withdrawals
  list (through `tree_hash` and `ssz_types`), and the leaf root of a transaction.
- `tx_proof` — the merkle branch of a payload's last transaction, and the proof
  that it recomputes the transactions root after that transaction is replaced.
- `signing` — the builder signing domain and signing roots.
- `get_payload` — the signed `get_payload_v3` request: SSZ encoding and decoding
  (with round-trip lemmas), its message root, and the answer to a request.
- `payload_storage` — the store of submitted payloads (a `dashmap::DashMap`)
  with store, lookup, listing, count and two-minute expiry.
- `adjustment` — the adjustable header submission built from an Electra block
  submission.

`app/` holds the HTTP server, the process-wide store and its cleanup task, and
the serde/SSZ copies of the library's types. `tests/` exercises the library
against the outside crates.
