# sparx_hash

SPARX hash functions (Shift, Popcount, Addition, Rotation, Xor) with
64-bit, 128-bit and two-lane 256-bit states, and a counter-mode random
generator core built on them.

- `src/` is the verified library: the permutations, the streaming hashers
  (`std::hash::Hasher`, `BuildHasher`, `Default`, `From<&RandomState>`), the
  128-bit digest (`DigestU128`), and the generator core (`rand_core`'s
  `Generator`). The functions state their results over the spec functions of
  their module; `bits.rs` gives the meaning of the std integer primitives
  used. One kind of result is left open: what is built from a
  `RandomState` (its keys are random). The SPARX-256 output step writes its
  second lane in the hardware's byte order, stated through vstd's
  `endianness()`.
- `app/` gives the hashers the traits of the `digest` and `rand` crates
  through thin copies, wraps the generator core in `rand_core`'s
  `BlockRng` as `CounterHashRng`, and runs the counter mode over any other
  16-byte `digest::Digest` (`DigestCounterHashRngCore`).
- `tests/` holds the uniqueness and avalanche tests and value tests.
