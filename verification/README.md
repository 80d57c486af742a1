# malus

A verified model of two pieces of a Polkadot node:

- the parachain host's session information (`v1`, `v2`), with the upgrade
  of first-version session information, and
- a "malus" node variant that backs garbage: the candidate-validation
  subsystem is wrapped by an interceptor that declares every candidate whose
  proof of validity is a fixed marker valid without checking it
  (`back_garbage_candidate`).

`src/` holds the verified library (Verus). The interceptor's decisions are
functions from the incoming message (and the interceptor's receipt cache)
to what is to be done; the node plumbing that carries them out lives in
`app/`, together with SCALE-encodable copies of the session types.

Run `tests/` for concrete scenarios; the laws are proof functions in
`src/v2.rs`, `src/receipt_cache.rs` and `src/back_garbage_candidate.rs`.
