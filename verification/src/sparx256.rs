//! SPARX-256: a hasher over two 128-bit lanes.
use vstd::prelude::*;
use core::hash::{BuildHasher, Hasher};
use std::hash::RandomState;
use crate::DigestU128;
use crate::bits::{hash_str_with, le_bytes128, ne_bytes128, rotate_left_u128, rotl128, to_ne_bytes_u128};
use crate::sparx128::{
    Sparx128Hasher, SPARX128_INIT, absorb128, digest128, finish128, permute128, permute_sparx128,
};

verus! {

/// The state after absorbing one pair of bytes (the second one is 256 when missing):
/// each lane is permuted with one byte, and the results cross over.
pub open spec fn step256(state: (u128, u128), bytes: Seq<u8>) -> (u128, u128)
    recommends
        bytes.len() >= 1,
{
    let p0: u128 = permute128(state.0.wrapping_add(bytes[0] as u128));
    let other: u128 = if bytes.len() >= 2 {
        bytes[1] as u128
    } else {
        256u128
    };
    let p1: u128 = permute128(rotl128(state.1, 59).wrapping_add(other));
    (state.0.wrapping_add(p1), state.1 ^ p0)
}

/// The state after absorbing `bytes`, two at a time, into `state`.
pub open spec fn absorb256(state: (u128, u128), bytes: Seq<u8>) -> (u128, u128)
    decreases bytes.len(),
{
    if bytes.len() == 0 {
        state
    } else {
        let next: (u128, u128) = step256(state, bytes);
        if bytes.len() <= 2 {
            next
        } else {
            absorb256(next, bytes.subrange(2, bytes.len() as int))
        }
    }
}

/// Writing `a` and then `b` leaves the same state as writing `a + b` at once,
/// whenever `a` has an even length (bytes are absorbed in pairs).
pub proof fn lemma_absorb256_concat(state: (u128, u128), a: Seq<u8>, b: Seq<u8>)
    requires
        a.len() % 2 == 0,
    ensures
        absorb256(state, a + b) == absorb256(absorb256(state, a), b),
    decreases a.len(),
{
    if a.len() == 0 {
        assert(a + b =~= b);
    } else {
        let ab: Seq<u8> = a + b;
        assert(step256(state, ab) == step256(state, a));
        let next: (u128, u128) = step256(state, a);
        if a.len() == 2 {
            assert(ab.subrange(2, ab.len() as int) =~= b);
            if b.len() == 0 {
                assert(ab =~= a);
            }
        } else {
            let rest: Seq<u8> = a.subrange(2, a.len() as int);
            assert(ab.subrange(2, ab.len() as int) =~= rest + b);
            lemma_absorb256_concat(next, rest, b);
        }
    }
}

/// One pair of bytes `[a, b]` written into lanes `(s0, s1)` leaves
/// `(s0 + P(rotl(s1, 59) + b), s1 ^ P(s0 + a))` (sums mod 2^128, `P` the SPARX-128
/// permutation): each byte counts with its own value, zero included. A lone
/// final byte `[a]` counts 256 in the second byte's place.
pub proof fn lemma_absorb256_pair(s: (u128, u128), a: u8, b: u8)
    ensures
        absorb256(s, seq![a, b]) == (
            ((s.0 as int + permute128(
                ((rotl128(s.1, 59) as int + b as int) % 0x1_0000_0000_0000_0000_0000_0000_0000_0000int) as u128,
            ) as int) % 0x1_0000_0000_0000_0000_0000_0000_0000_0000int) as u128,
            s.1 ^ permute128(((s.0 as int + a as int) % 0x1_0000_0000_0000_0000_0000_0000_0000_0000int) as u128),
        ),
        absorb256(s, seq![a]) == (
            ((s.0 as int + permute128(((rotl128(s.1, 59) as int + 256) % 0x1_0000_0000_0000_0000_0000_0000_0000_0000int) as u128) as int)
                % 0x1_0000_0000_0000_0000_0000_0000_0000_0000int) as u128,
            s.1 ^ permute128(((s.0 as int + a as int) % 0x1_0000_0000_0000_0000_0000_0000_0000_0000int) as u128),
        ),
{
    let in0: u128 = s.0.wrapping_add(a as u128);
    let in1: u128 = rotl128(s.1, 59).wrapping_add(b as u128);
    let in1_lone: u128 = rotl128(s.1, 59).wrapping_add(256u128);
    assert(in0 == ((s.0 as int + a as int) % 0x1_0000_0000_0000_0000_0000_0000_0000_0000int) as u128);
    assert(in1 == ((rotl128(s.1, 59) as int + b as int) % 0x1_0000_0000_0000_0000_0000_0000_0000_0000int) as u128);
    assert(in1_lone == ((rotl128(s.1, 59) as int + 256) % 0x1_0000_0000_0000_0000_0000_0000_0000_0000int) as u128);
    let p0: u128 = permute128(in0);
    let p1: u128 = permute128(in1);
    let p1_lone: u128 = permute128(in1_lone);
    assert(s.0.wrapping_add(p1) == ((s.0 as int + p1 as int) % 0x1_0000_0000_0000_0000_0000_0000_0000_0000int) as u128);
    assert(s.0.wrapping_add(p1_lone) == ((s.0 as int + p1_lone as int) % 0x1_0000_0000_0000_0000_0000_0000_0000_0000int) as u128);
    assert(step256(s, seq![a, b]) == (s.0.wrapping_add(p1), s.1 ^ p0));
    assert(step256(s, seq![a]) == (s.0.wrapping_add(p1_lone), s.1 ^ p0));
}

/// The 128-bit state the output is read from: a SPARX-128 state started at the
/// first lane, into which `lane_bytes`, the bytes of the second lane, are written.
pub open spec fn fold256(state: (u128, u128), lane_bytes: Seq<u8>) -> u128 {
    absorb128(state.0, lane_bytes)
}

/// The state the output is read from: the second lane written in the
/// hardware's native byte order, as `Hasher::write_u128` writes it.
pub open spec fn output_state256(state: (u128, u128)) -> u128 {
    fold256(state, ne_bytes128(state.1))
}

/// The SPARX-256 output is read from a SPARX-128 state that starts at the first
/// lane and absorbs the second lane's bytes in native order; digest and hash
/// are SPARX-128's of that state.
pub proof fn lemma_output256_through_sparx128(s: (u128, u128))
    ensures
        output_state256(s) == absorb128(s.0, ne_bytes128(s.1)),
{
}

/// A streaming hasher over two 128-bit lanes.
#[derive(Clone, Copy)]
pub struct Sparx256Hasher(u128, u128);

impl View for Sparx256Hasher {
    type V = (u128, u128);

    closed spec fn view(&self) -> (u128, u128) {
        (self.0, self.1)
    }
}

impl Sparx256Hasher {
    /// A hasher whose lanes are `first` and `second`.
    pub fn from_state(first: u128, second: u128) -> (r: Self)
        ensures
            r@ == (first, second),
    {
        Sparx256Hasher(first, second)
    }

    /// Absorbs `data`; the same as `write`.
    pub fn update(&mut self, data: &[u8])
        ensures
            final(self)@ == absorb256(old(self)@, data@),
    {
        self.write(data);
    }

    /// The SPARX-128 hasher started at the first lane, into which `second_lane`
    /// (the bytes of the second lane) has been written.
    pub fn output_hasher(&self, second_lane: &[u8; 16]) -> (r: Sparx128Hasher)
        ensures
            r@ == fold256(self@, second_lane@),
    {
        let mut out_hasher: Sparx128Hasher = Sparx128Hasher::from_state(self.0);
        out_hasher.write(second_lane.as_slice());
        out_hasher
    }

    /// The SPARX-128 hasher the output is read from: the second lane is written
    /// in native byte order.
    fn folded(&self) -> (r: Sparx128Hasher)
        ensures
            r@ == output_state256(self@),
    {
        let second: [u8; 16] = to_ne_bytes_u128(self.1);
        self.output_hasher(&second)
    }

    /// Writes the digest, little-endian, into `out`.
    pub fn finalize_into(self, out: &mut [u8; 16])
        ensures
            final(out)@ == le_bytes128(digest128(output_state256(self@))),
    {
        let transform: Sparx128Hasher = self.folded();
        transform.finalize_into(out);
    }
}

impl DigestU128 for Sparx256Hasher {
    open spec fn digest_value(&self) -> u128 {
        digest128(output_state256(self@))
    }

    fn finalize_u128(&self) -> (r: u128) {
        self.folded().finalize_u128()
    }
}

impl Hasher for Sparx256Hasher {
    fn finish(&self) -> (r: u64)
        ensures
            r == finish128(output_state256(self@)),
    {
        let out_hasher: Sparx128Hasher = self.folded();
        out_hasher.finish()
    }

    fn write(&mut self, bytes: &[u8])
        ensures
            final(self)@ == absorb256(old(self)@, bytes@),
    {
        let n: usize = bytes.len();
        let mut i: usize = 0;
        assert(bytes@.subrange(0, n as int) =~= bytes@);
        while i < n
            invariant
                i <= n,
                n == bytes@.len(),
                absorb256(self@, bytes@.subrange(i as int, n as int)) == absorb256(
                    old(self)@,
                    bytes@,
                ),
            decreases n - i,
        {
            let ghost rest: Seq<u8> = bytes@.subrange(i as int, n as int);
            let byte: u128 = bytes[i] as u128;
            let p0: u128 = permute_sparx128(self.0.wrapping_add(byte));
            let other_byte: u128 = if i + 1 < n {
                bytes[i + 1] as u128
            } else {
                256
            };
            let p1: u128 = permute_sparx128(rotate_left_u128(self.1, 59).wrapping_add(other_byte));
            self.0 = self.0.wrapping_add(p1);
            self.1 = self.1 ^ p0;
            if i + 1 < n {
                assert(rest.subrange(2, rest.len() as int) =~= bytes@.subrange(
                    i + 2,
                    n as int,
                ));
                i = i + 2;
            } else {
                i = i + 1;
            }
        }
        assert(bytes@.subrange(n as int, n as int) =~= Seq::<u8>::empty());
    }
}

impl Default for Sparx256Hasher {
    fn default() -> (r: Self)
        ensures
            r@ == (0xf39cc0605cedc834_1082276bf3a27251u128, 0xf39cc0605cedc834_1082276bf3a27251u128),
    {
        Sparx256Hasher(SPARX128_INIT, SPARX128_INIT)
    }
}

/// A `RandomState` holds keys drawn at random, so no value is specified
/// for what is built from one.
impl vstd::std_specs::convert::FromSpecImpl<&RandomState> for Sparx256Hasher {
    open spec fn obeys_from_spec() -> bool {
        false
    }

    open spec fn from_spec(v: &RandomState) -> Self {
        arbitrary()
    }
}

impl From<&RandomState> for Sparx256Hasher {
    fn from(state: &RandomState) -> Self {
        Sparx256HashBuilder::from(state).build_hasher()
    }
}

/// Builds `Sparx256Hasher`s that all start from one pair of lanes.
#[derive(Clone, Copy)]
pub struct Sparx256HashBuilder(u128, u128);

impl View for Sparx256HashBuilder {
    type V = (u128, u128);

    closed spec fn view(&self) -> (u128, u128) {
        (self.0, self.1)
    }
}

impl Sparx256HashBuilder {
    /// A builder whose hashers start from the lanes `first` and `second`.
    pub fn from_state(first: u128, second: u128) -> (r: Self)
        ensures
            r@ == (first, second),
    {
        Sparx256HashBuilder(first, second)
    }

    /// The builder whose first lane is `a` (high half) and `b` (low half), and
    /// whose second lane is `c` (high half) and `d` (low half).
    pub fn from_state_hashes(a: u64, b: u64, c: u64, d: u64) -> (r: Self)
        ensures
            r@.0 == a as int * 0x1_0000_0000_0000_0000 + b as int,
            r@.1 == c as int * 0x1_0000_0000_0000_0000 + d as int,
    {
        assert(((a as u128) << 64u128 | b as u128) == a as int * 0x1_0000_0000_0000_0000
            + b as int) by (bit_vector);
        assert(((c as u128) << 64u128 | d as u128) == c as int * 0x1_0000_0000_0000_0000
            + d as int) by (bit_vector);
        Sparx256HashBuilder((a as u128) << 64 | b as u128, (c as u128) << 64 | d as u128)
    }
}

impl BuildHasher for Sparx256HashBuilder {
    type Hasher = Sparx256Hasher;

    fn build_hasher(&self) -> (r: Sparx256Hasher)
        ensures
            r@ == self@,
    {
        Sparx256Hasher(self.0, self.1)
    }
}

impl Default for Sparx256HashBuilder {
    fn default() -> (r: Self)
        ensures
            r@ == (0xf39cc0605cedc834_1082276bf3a27251u128, 0xf39cc0605cedc834_1082276bf3a27251u128),
    {
        Sparx256HashBuilder(SPARX128_INIT, SPARX128_INIT)
    }
}

/// A `RandomState` holds keys drawn at random, so no value is specified
/// for what is built from one.
impl vstd::std_specs::convert::FromSpecImpl<&RandomState> for Sparx256HashBuilder {
    open spec fn obeys_from_spec() -> bool {
        false
    }

    open spec fn from_spec(v: &RandomState) -> Self {
        arbitrary()
    }
}

impl From<&RandomState> for Sparx256HashBuilder {
    fn from(state: &RandomState) -> Self {
        Sparx256HashBuilder::from_state_hashes(
            hash_str_with(state, "Sparx256"),
            hash_str_with(state, "hasher"),
            hash_str_with(state, "HASHER"),
            hash_str_with(state, "256Sparx"),
        )
    }
}

} // verus!
