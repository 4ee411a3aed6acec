//! SPARX-128: a 128-bit state hasher.
use vstd::prelude::*;
use core::hash::{BuildHasher, Hasher};
use std::hash::RandomState;
use crate::DigestU128;
use crate::bits::{
    count_ones_u128, hash_str_with, le_bytes128, popcount128, reverse128, reverse_bits_u128,
    rotate_left_u128, rotate_right_u128, rotl128, rotr128, to_le_bytes_u128,
};

verus! {

/// Initial state of a default hasher.
pub const SPARX128_INIT: u128 = 0xf39cc0605cedc834_1082276bf3a27251;

/// The SPARX-128 permutation step. The shift by `count ^ 61` is taken modulo 128,
/// as `<<` behaves in builds without overflow checks.
pub open spec fn permute128(input: u128) -> u128 {
    let count1: u32 = popcount128(input) as u32;
    let inc: u128 = (1u128.wrapping_shl(count1 ^ 61u32).wrapping_add(
        rotl128(count1 as u128, 8),
    ).wrapping_add(input)) | 1u128;
    let t: u128 = input ^ rotl128(inc, 29).wrapping_sub(rotr128(input, 41));
    t.wrapping_add(inc)
}

/// The word absorbed for a pair of bytes: the first byte bit-reversed into the
/// top of the word, the second byte (or 256 when it is missing) at the bottom.
pub open spec fn pair_word128(bytes: Seq<u8>) -> u128
    recommends
        bytes.len() >= 1,
{
    reverse128(bytes[0] as u128) | (if bytes.len() >= 2 {
        bytes[1] as u128
    } else {
        256u128
    })
}

/// The state after absorbing `bytes`, two at a time, into `state`.
pub open spec fn absorb128(state: u128, bytes: Seq<u8>) -> u128
    decreases bytes.len(),
{
    if bytes.len() == 0 {
        state
    } else {
        let next: u128 = permute128(state.wrapping_add(pair_word128(bytes)));
        if bytes.len() <= 2 {
            next
        } else {
            absorb128(next, bytes.subrange(2, bytes.len() as int))
        }
    }
}

/// Writing `a` and then `b` leaves the same state as writing `a + b` at once,
/// whenever `a` has an even length (bytes are absorbed in pairs).
pub proof fn lemma_absorb128_concat(state: u128, a: Seq<u8>, b: Seq<u8>)
    requires
        a.len() % 2 == 0,
    ensures
        absorb128(state, a + b) == absorb128(absorb128(state, a), b),
    decreases a.len(),
{
    if a.len() == 0 {
        assert(a + b =~= b);
    } else {
        let ab: Seq<u8> = a + b;
        assert(pair_word128(ab) == pair_word128(a));
        let next: u128 = permute128(state.wrapping_add(pair_word128(a)));
        if a.len() == 2 {
            assert(ab.subrange(2, ab.len() as int) =~= b);
            if b.len() == 0 {
                assert(ab =~= a);
            }
        } else {
            let rest: Seq<u8> = a.subrange(2, a.len() as int);
            assert(ab.subrange(2, ab.len() as int) =~= rest + b);
            lemma_absorb128_concat(next, rest, b);
        }
    }
}

/// What one step of the permutation computes, in modular arithmetic: with
/// `c` the number of one bits of `x`, the odd increment is
/// `(2^((c ^ 61) mod 128) + rotl(c, 8) + x) mod 2^128`, with its low bit set, and
/// the result is `(x ^ ((rotl(inc, 29) - rotr(x, 41)) mod 2^128)) + inc`, mod 2^128.
pub proof fn lemma_permute128_arithmetic(x: u128)
    ensures
        ({
            let c: u32 = popcount128(x) as u32;
            let sum: int = (1u128 << ((c ^ 61u32) % 128u32)) as int + rotl128(c as u128, 8) as int
                + x as int;
            let inc: u128 = ((sum % 0x1_0000_0000_0000_0000_0000_0000_0000_0000int) as u128) | 1u128;
            let diff: u128 = ((rotl128(inc, 29) as int - rotr128(x, 41) as int) % 0x1_0000_0000_0000_0000_0000_0000_0000_0000int) as u128;
            &&& inc % 2 == 1
            &&& permute128(x) == (((x ^ diff) as int + inc as int) % 0x1_0000_0000_0000_0000_0000_0000_0000_0000int) as u128
        }),
{
    let c: u32 = popcount128(x) as u32;
    let sum: int = (1u128 << ((c ^ 61u32) % 128u32)) as int + rotl128(c as u128, 8) as int
        + x as int;
    let inc: u128 = ((sum % 0x1_0000_0000_0000_0000_0000_0000_0000_0000int) as u128) | 1u128;
    let inc2: u128 = (1u128.wrapping_shl(c ^ 61u32).wrapping_add(rotl128(c as u128, 8)).wrapping_add(
        x,
    )) | 1u128;
    assert(1u128.wrapping_shl(c ^ 61u32) == (1u128 << ((c ^ 61u32) % 128u32)));
    assert(inc2 == inc);
    let low: u128 = (sum % 0x1_0000_0000_0000_0000_0000_0000_0000_0000int) as u128;
    assert((low | 1u128) % 2 == 1) by (bit_vector);
}

/// One pair of bytes `[a, b]` written into state `s` leaves
/// `permute(s + (reverse_bits(a) | b))` (mod 2^128): the second byte counts with
/// its own value, and a pair of zero bytes adds the word 0. A lone final byte
/// `[a]` counts as 256 in the second byte's place.
pub proof fn lemma_absorb128_pair(s: u128, a: u8, b: u8)
    ensures
        absorb128(s, seq![a, b]) == permute128(
            ((s as int + (reverse128(a as u128) | (b as u128)) as int) % 0x1_0000_0000_0000_0000_0000_0000_0000_0000int) as u128,
        ),
        absorb128(s, seq![a]) == permute128(
            ((s as int + (reverse128(a as u128) | 256u128) as int) % 0x1_0000_0000_0000_0000_0000_0000_0000_0000int) as u128,
        ),
{
    assert(pair_word128(seq![a, b]) == reverse128(a as u128) | (b as u128));
    assert(pair_word128(seq![a]) == reverse128(a as u128) | 256u128);
}

/// The 128-bit digest read out of a state.
pub open spec fn digest128(state: u128) -> u128 {
    state ^ permute128(reverse128(state).wrapping_add(SPARX128_INIT))
}

/// The 64-bit hash: the two halves of the digest xored together.
pub open spec fn finish128(state: u128) -> u64 {
    let out: u128 = digest128(state);
    (out as u64) ^ ((out >> 64u128) as u64)
}

/// The digest of state `s` is `s ^ permute(reverse_bits(s) + SPARX128_INIT mod 2^128)`,
/// and the 64-bit hash is its low half xored with its high half.
pub proof fn lemma_digest128_arithmetic(s: u128)
    ensures
        digest128(s) == s ^ permute128(
            ((reverse128(s) as int + 0xf39cc0605cedc834_1082276bf3a27251int) % 0x1_0000_0000_0000_0000_0000_0000_0000_0000int) as u128,
        ),
        finish128(s) == ((digest128(s) as int % 0x1_0000_0000_0000_0000) as u64) ^ ((
        digest128(s) as int / 0x1_0000_0000_0000_0000) as u64),
{
    let d: u128 = digest128(s);
    assert((d as u64) as int == d as int % 0x1_0000_0000_0000_0000) by (bit_vector);
    assert((d >> 64u128) as u64 as int == d as int / 0x1_0000_0000_0000_0000) by (bit_vector);
}

/// Applies the SPARX-128 permutation to `input`.
pub fn permute_sparx128(input: u128) -> (r: u128)
    ensures
        r == permute128(input),
{
    let count1: u32 = count_ones_u128(input);
    // odd increment
    let inc: u128 = (1u128.wrapping_shl(count1 ^ 61).wrapping_add(
        rotate_left_u128(count1 as u128, 8),
    ).wrapping_add(input)) | 1;
    let t: u128 = input ^ rotate_left_u128(inc, 29).wrapping_sub(rotate_right_u128(input, 41));
    t.wrapping_add(inc)
}

/// A streaming hasher over a 128-bit state.
#[derive(Copy, Clone, Debug)]
pub struct Sparx128Hasher(pub(crate) u128);

impl View for Sparx128Hasher {
    type V = u128;

    closed spec fn view(&self) -> u128 {
        self.0
    }
}

impl Sparx128Hasher {
    /// A hasher whose state is `state`.
    pub fn from_state(state: u128) -> (r: Self)
        ensures
            r@ == state,
    {
        Sparx128Hasher(state)
    }

    /// Absorbs `data`; the same as `write`.
    pub fn update(&mut self, data: &[u8])
        ensures
            final(self)@ == absorb128(old(self)@, data@),
    {
        self.write(data);
    }

    /// The 128-bit digest of what has been written.
    fn digest(&self) -> (r: u128)
        ensures
            r == digest128(self@),
    {
        self.0 ^ permute_sparx128(reverse_bits_u128(self.0).wrapping_add(SPARX128_INIT))
    }

    /// Writes the digest, little-endian, into `out`.
    pub fn finalize_into(self, out: &mut [u8; 16])
        ensures
            final(out)@ == le_bytes128(digest128(self@)),
    {
        *out = to_le_bytes_u128(self.digest());
    }
}

impl DigestU128 for Sparx128Hasher {
    open spec fn digest_value(&self) -> u128 {
        digest128(self@)
    }

    fn finalize_u128(&self) -> (r: u128) {
        self.digest()
    }
}

impl Hasher for Sparx128Hasher {
    fn finish(&self) -> (r: u64)
        ensures
            r == finish128(self@),
    {
        let out: u128 = self.digest();
        out as u64 ^ (out >> 64) as u64
    }

    fn write(&mut self, bytes: &[u8])
        ensures
            final(self)@ == absorb128(old(self)@, bytes@),
    {
        let n: usize = bytes.len();
        let mut i: usize = 0;
        assert(bytes@.subrange(0, n as int) =~= bytes@);
        while i < n
            invariant
                i <= n,
                n == bytes@.len(),
                absorb128(self@, bytes@.subrange(i as int, n as int)) == absorb128(
                    old(self)@,
                    bytes@,
                ),
            decreases n - i,
        {
            let ghost rest: Seq<u8> = bytes@.subrange(i as int, n as int);
            let byte: u8 = bytes[i];
            let low: u128 = if i + 1 < n {
                bytes[i + 1] as u128
            } else {
                256
            };
            let input: u128 = reverse_bits_u128(byte as u128) | low;
            assert(input == pair_word128(rest));
            self.0 = permute_sparx128(self.0.wrapping_add(input));
            if i + 1 < n {
                assert(rest.subrange(2, rest.len() as int) =~= bytes@.subrange(
                    i + 2,
                    n as int,
                ));
                i = i + 2;
            } else {
                i = i + 1;
            }
        }
        assert(bytes@.subrange(n as int, n as int) =~= Seq::<u8>::empty());
    }
}

impl Default for Sparx128Hasher {
    fn default() -> (r: Self)
        ensures
            r@ == 0xf39cc0605cedc834_1082276bf3a27251u128,
    {
        Sparx128Hasher(SPARX128_INIT)
    }
}

/// A `RandomState` holds keys drawn at random, so no value is specified
/// for what is built from one.
impl vstd::std_specs::convert::FromSpecImpl<&RandomState> for Sparx128Hasher {
    open spec fn obeys_from_spec() -> bool {
        false
    }

    open spec fn from_spec(v: &RandomState) -> Self {
        arbitrary()
    }
}

impl From<&RandomState> for Sparx128Hasher {
    fn from(state: &RandomState) -> Self {
        Sparx128HashBuilder::from(state).build_hasher()
    }
}

/// Builds `Sparx128Hasher`s that all start from one state.
pub struct Sparx128HashBuilder(u128);

impl View for Sparx128HashBuilder {
    type V = u128;

    closed spec fn view(&self) -> u128 {
        self.0
    }
}

impl Sparx128HashBuilder {
    /// A builder whose hashers start from `state`.
    pub fn from_state(state: u128) -> (r: Self)
        ensures
            r@ == state,
    {
        Sparx128HashBuilder(state)
    }

    /// The builder whose state has `hi` as its high and `lo` as its low 64 bits.
    pub fn from_state_hashes(hi: u64, lo: u64) -> (r: Self)
        ensures
            r@ == hi as int * 0x1_0000_0000_0000_0000 + lo as int,
    {
        let state: u128 = (hi as u128) << 64 | lo as u128;
        assert(((hi as u128) << 64u128 | lo as u128) == hi as int * 0x1_0000_0000_0000_0000
            + lo as int) by (bit_vector);
        Sparx128HashBuilder(state)
    }
}

impl BuildHasher for Sparx128HashBuilder {
    type Hasher = Sparx128Hasher;

    fn build_hasher(&self) -> (r: Sparx128Hasher)
        ensures
            r@ == self@,
    {
        Sparx128Hasher(self.0)
    }
}

impl Default for Sparx128HashBuilder {
    fn default() -> (r: Self)
        ensures
            r@ == 0xf39cc0605cedc834_1082276bf3a27251u128,
    {
        Sparx128HashBuilder(SPARX128_INIT)
    }
}

/// A `RandomState` holds keys drawn at random, so no value is specified
/// for what is built from one.
impl vstd::std_specs::convert::FromSpecImpl<&RandomState> for Sparx128HashBuilder {
    open spec fn obeys_from_spec() -> bool {
        false
    }

    open spec fn from_spec(v: &RandomState) -> Self {
        arbitrary()
    }
}

impl From<&RandomState> for Sparx128HashBuilder {
    fn from(state: &RandomState) -> Self {
        Sparx128HashBuilder::from_state_hashes(
            hash_str_with(state, "Sparx128"),
            hash_str_with(state, "128Sparx"),
        )
    }
}

} // verus!
