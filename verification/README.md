# metering_chain

A deterministic metering and billing state machine: accounts, meters, usage-based
consumption, delegated consumption under signed capabilities, settlements with claims and
disputes, and versioned settlement policies. Every transition is a pure function of the
state and a transaction, so replaying the transaction log rebuilds the same state.

The library in `src/` is verified with Verus:

- `state/` — the state, the transitions (`apply`, `StateMachine`), and the laws that every
  accepted transaction keeps (`laws.rs`, `value.rs`): nonces advance by one, value is
  conserved, payouts stay within the operator share, disputes freeze payouts, revoked
  capabilities cannot consume, delegated usage stays within its caveats, policy versions
  only grow, and usage totals never decrease.
- `tx/` — transactions, their canonical bytes, delegation proofs, and validation.
- `replay.rs` — replaying the log from a snapshot or from genesis, and settlement windows.
- `storage.rs` — the layout of the log and of snapshots, the `Storage` trait (with a model of
  its contents that verified implementations such as `MemoryStorage` keep to).
- `evidence.rs`, `wallet.rs`, `crypto.rs`, `encoding.rs`, `wire.rs` — evidence hashes,
  signing and verification, encodings.
- `chain/` — blocks and proof of work.

Hashing, hex and base58, Ed25519 and big-number comparison are done by their crates
(`sha2`, `hex`, `bs58`, `ed25519-dalek`, `num-bigint`); the library states what it relies
on from each call next to the call.

`app/` is the command-line tool around the library: argument parsing, files on disk,
the JSON wallet store and output formatting.
