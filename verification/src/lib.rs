//! The SPARX family of hash functions, named for the operations they use:
//! Shift (`<<`), Popcount (`count_ones`), Addition (`wrapping_add`),
//! Rotation (`rotate_left`) and Xor (`^`).
use vstd::prelude::*;

pub mod bits;
pub mod sparx128;
pub mod sparx256;
pub mod sparx64;
pub mod rng;

verus! {

/// Hashers whose digest is 16 bytes, read as one little-endian `u128`.
pub trait DigestU128 {
    /// The digest of what has been written so far.
    spec fn digest_value(&self) -> u128;

    /// Returns the digest without consuming or changing the hasher.
    fn finalize_u128(&self) -> (r: u128)
        ensures
            r == self.digest_value(),
    ;
}

} // verus!
