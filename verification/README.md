# c0dl3_privacy

The privacy layer of the C0DL3 sequencer as a Verus-verified library:
Pedersen amount commitments and their homomorphic arithmetic, proofs of
knowledge of a commitment's opening, encrypted addresses, block commitment
proofs over Merkle roots of transaction commitments, mining-reward claims
with nullifiers, STARK and Boojum proof envelopes, cross-chain privacy
proofs and analytics, mixing pools and anonymity sets, privacy monitoring,
proof caches and the deployment and audit bookkeeping around them.

Layout:

- `src/` is the verified library. Each module carries its contracts; the
  laws that relate several operations stand as public proof functions
  (`lemma_*`). What the library takes from outside crates (SHA-256, hex,
  ChaCha20Poly1305, Ristretto and Bulletproofs, Winterfell's field, rayon,
  num_cpus, randomness and the clock) goes through the small trusted
  wrappers in `crypto.rs`, `curve.rs` and `stark_field.rs`, and the two
  for rayon and num_cpus in `phase4_performance_optimization.rs`, whose
  doc comments say what is claimed of the code they call.
- `tests/` exercises the library on concrete values.
- `app/` holds what stays outside verification: JSON encoding, the
  floating-point metrics and benchmarks, and printing.

Times are kept in whole milliseconds or seconds, and rates and scores in
whole percent (or tenths and hundredths where stated), rounded down;
measured proof generation and verification times are rounded up to whole
milliseconds.
