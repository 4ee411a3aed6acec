//! SPARX-64: a 64-bit state hasher.
use vstd::prelude::*;
use core::hash::{BuildHasher, Hasher};
use std::hash::RandomState;
use crate::bits::{count_ones_u64, le_bytes64, popcount64, reverse64, reverse_bits_u64, rotate_left_u64, rotl64, to_le_bytes_u64, hash_str_with};

verus! {

/// Initial state of a default hasher.
pub const SPARX64_INIT: u64 = 0x9E3779B97F4A7C15;

/// Multiplier applied to the state when a hash is read out.
pub const SPARX64_FINALIZE: u64 = 0xf86c6a11d0c18e95;

/// The SPARX-64 permutation step. The shift by `count ^ 37` is taken modulo 64,
/// as `<<` behaves in builds without overflow checks.
pub open spec fn permute64(input: u64) -> u64 {
    let count1: u32 = popcount64(input) as u32;
    let inc: u64 = (1u64.wrapping_shl(count1 ^ 37u32).wrapping_add(input).wrapping_add(
        rotl64(count1 as u64, 8),
    )) | 1u64;
    let t: u64 = input ^ rotl64(inc, 13).wrapping_sub(rotl64(input, 29));
    t.wrapping_add(inc)
}

/// The word absorbed for a pair of bytes: the first byte bit-reversed into the
/// top of the word, the second byte (or 256 when it is missing) at the bottom.
pub open spec fn pair_word64(bytes: Seq<u8>) -> u64
    recommends
        bytes.len() >= 1,
{
    reverse64(bytes[0] as u64) | (if bytes.len() >= 2 {
        bytes[1] as u64
    } else {
        256u64
    })
}

/// The state after absorbing `bytes`, two at a time, into `state`.
pub open spec fn absorb64(state: u64, bytes: Seq<u8>) -> u64
    decreases bytes.len(),
{
    if bytes.len() == 0 {
        state
    } else {
        let next: u64 = permute64(state.wrapping_add(pair_word64(bytes)));
        if bytes.len() <= 2 {
            next
        } else {
            absorb64(next, bytes.subrange(2, bytes.len() as int))
        }
    }
}

/// Writing `a` and then `b` leaves the same state as writing `a + b` at once,
/// whenever `a` has an even length (bytes are absorbed in pairs).
pub proof fn lemma_absorb64_concat(state: u64, a: Seq<u8>, b: Seq<u8>)
    requires
        a.len() % 2 == 0,
    ensures
        absorb64(state, a + b) == absorb64(absorb64(state, a), b),
    decreases a.len(),
{
    if a.len() == 0 {
        assert(a + b =~= b);
    } else {
        let ab: Seq<u8> = a + b;
        assert(pair_word64(ab) == pair_word64(a));
        let next: u64 = permute64(state.wrapping_add(pair_word64(a)));
        if a.len() == 2 {
            assert(ab.subrange(2, ab.len() as int) =~= b);
            if b.len() == 0 {
                assert(ab =~= a);
            }
        } else {
            let rest: Seq<u8> = a.subrange(2, a.len() as int);
            assert(ab.subrange(2, ab.len() as int) =~= rest + b);
            lemma_absorb64_concat(next, rest, b);
        }
    }
}

/// What one step of the permutation computes, in modular arithmetic: with
/// `c` the number of one bits of `x`, the odd increment is
/// `(2^((c ^ 37) mod 64) + x + rotl(c, 8)) mod 2^64`, with its low bit set, and
/// the result is `(x ^ ((rotl(inc, 13) - rotl(x, 29)) mod 2^64)) + inc`, mod 2^64.
pub proof fn lemma_permute64_arithmetic(x: u64)
    ensures
        ({
            let c: u32 = popcount64(x) as u32;
            let sum: int = (1u64 << ((c ^ 37u32) % 64u32)) as int + x as int + rotl64(
                c as u64,
                8,
            ) as int;
            let inc: u64 = ((sum % 0x1_0000_0000_0000_0000) as u64) | 1u64;
            let diff: u64 = ((rotl64(inc, 13) as int - rotl64(x, 29) as int)
                % 0x1_0000_0000_0000_0000) as u64;
            &&& inc % 2 == 1
            &&& permute64(x) == (((x ^ diff) as int + inc as int) % 0x1_0000_0000_0000_0000) as u64
        }),
{
    let c: u32 = popcount64(x) as u32;
    let sum: int = (1u64 << ((c ^ 37u32) % 64u32)) as int + x as int + rotl64(c as u64, 8) as int;
    let inc: u64 = ((sum % 0x1_0000_0000_0000_0000) as u64) | 1u64;
    let inc2: u64 = (1u64.wrapping_shl(c ^ 37u32).wrapping_add(x).wrapping_add(rotl64(c as u64, 8)))
        | 1u64;
    assert(1u64.wrapping_shl(c ^ 37u32) == (1u64 << ((c ^ 37u32) % 64u32)));
    assert(inc2 == inc);
    let low: u64 = (sum % 0x1_0000_0000_0000_0000) as u64;
    assert((low | 1u64) % 2 == 1) by (bit_vector);
}

/// One pair of bytes `[a, b]` written into state `s` leaves
/// `permute(s + (reverse_bits(a) | b))` (mod 2^64): the second byte counts with its
/// own value, zero included. A lone final byte `[a]` counts as 256 in its place.
pub proof fn lemma_absorb64_pair(s: u64, a: u8, b: u8)
    ensures
        absorb64(s, seq![a, b]) == permute64(
            ((s as int + (reverse64(a as u64) | (b as u64)) as int) % 0x1_0000_0000_0000_0000) as u64,
        ),
        absorb64(s, seq![a]) == permute64(
            ((s as int + (reverse64(a as u64) | 256u64) as int) % 0x1_0000_0000_0000_0000) as u64,
        ),
{
    assert(pair_word64(seq![a, b]) == reverse64(a as u64) | (b as u64));
    assert(pair_word64(seq![a]) == reverse64(a as u64) | 256u64);
}

/// The 64-bit hash read out of a state.
pub open spec fn finish64(state: u64) -> u64 {
    permute64(state.wrapping_add(512).wrapping_mul(SPARX64_FINALIZE)) ^ state
}

/// The hash read out of state `s` is `permute((s + 512) * SPARX64_FINALIZE mod 2^64)`
/// xored with `s`.
pub proof fn lemma_finish64_arithmetic(s: u64)
    ensures
        finish64(s) == permute64(
            (((s as int + 512) * 0xf86c6a11d0c18e95int) % 0x1_0000_0000_0000_0000) as u64,
        ) ^ s,
{
    let t: u64 = s.wrapping_add(512);
    assert(t as int == (s as int + 512) % 0x1_0000_0000_0000_0000);
    assert(t.wrapping_mul(SPARX64_FINALIZE) as int == ((t as int) * 0xf86c6a11d0c18e95int)
        % 0x1_0000_0000_0000_0000);
    vstd::arithmetic::div_mod::lemma_mul_mod_noop_left(
        s as int + 512,
        0xf86c6a11d0c18e95int,
        0x1_0000_0000_0000_0000,
    );
}

/// Applies the SPARX-64 permutation to `input`.
pub fn permute_sparx64(input: u64) -> (r: u64)
    ensures
        r == permute64(input),
{
    let count1: u32 = count_ones_u64(input);
    // odd increment
    let inc: u64 = (1u64.wrapping_shl(count1 ^ 37).wrapping_add(input).wrapping_add(
        rotate_left_u64(count1 as u64, 8),
    )) | 1;
    let t: u64 = input ^ rotate_left_u64(inc, 13).wrapping_sub(rotate_left_u64(input, 29));
    t.wrapping_add(inc)
}

/// A streaming hasher over a 64-bit state.
#[derive(Copy, Clone, Debug)]
pub struct Sparx64Hasher(u64);

impl View for Sparx64Hasher {
    type V = u64;

    closed spec fn view(&self) -> u64 {
        self.0
    }
}

impl Sparx64Hasher {
    /// A hasher whose state is `state`.
    pub fn from_state(state: u64) -> (r: Self)
        ensures
            r@ == state,
    {
        Sparx64Hasher(state)
    }

    /// Absorbs `data`; the same as `write`.
    pub fn update(&mut self, data: &[u8])
        ensures
            final(self)@ == absorb64(old(self)@, data@),
    {
        self.write(data);
    }

    /// Writes the hash, little-endian, into `out`.
    pub fn finalize_into(self, out: &mut [u8; 8])
        ensures
            final(out)@ == le_bytes64(finish64(self@)),
    {
        *out = to_le_bytes_u64(self.finish());
    }
}

impl Hasher for Sparx64Hasher {
    fn finish(&self) -> (r: u64)
        ensures
            r == finish64(self@),
    {
        permute_sparx64(self.0.wrapping_add(512).wrapping_mul(SPARX64_FINALIZE)) ^ self.0
    }

    fn write(&mut self, bytes: &[u8])
        ensures
            final(self)@ == absorb64(old(self)@, bytes@),
    {
        let n: usize = bytes.len();
        let mut i: usize = 0;
        assert(bytes@.subrange(0, n as int) =~= bytes@);
        while i < n
            invariant
                i <= n,
                n == bytes@.len(),
                absorb64(self@, bytes@.subrange(i as int, n as int)) == absorb64(
                    old(self)@,
                    bytes@,
                ),
            decreases n - i,
        {
            let ghost rest: Seq<u8> = bytes@.subrange(i as int, n as int);
            let byte: u8 = bytes[i];
            let low: u64 = if i + 1 < n {
                bytes[i + 1] as u64
            } else {
                256
            };
            let input: u64 = reverse_bits_u64(byte as u64) | low;
            assert(input == pair_word64(rest));
            self.0 = permute_sparx64(self.0.wrapping_add(input));
            if i + 1 < n {
                assert(rest.subrange(2, rest.len() as int) =~= bytes@.subrange(
                    i + 2,
                    n as int,
                ));
                i = i + 2;
            } else {
                i = i + 1;
            }
        }
        assert(bytes@.subrange(n as int, n as int) =~= Seq::<u8>::empty());
    }
}

impl Default for Sparx64Hasher {
    fn default() -> (r: Self)
        ensures
            r@ == 0x9E3779B97F4A7C15u64,
    {
        Sparx64Hasher(SPARX64_INIT)
    }
}

/// A `RandomState` holds keys drawn at random, so no value is specified
/// for what is built from one.
impl vstd::std_specs::convert::FromSpecImpl<&RandomState> for Sparx64Hasher {
    open spec fn obeys_from_spec() -> bool {
        false
    }

    open spec fn from_spec(v: &RandomState) -> Self {
        arbitrary()
    }
}

impl From<&RandomState> for Sparx64Hasher {
    fn from(state: &RandomState) -> Self {
        Sparx64HashBuilder::from(state).build_hasher()
    }
}

/// Builds `Sparx64Hasher`s that all start from one state.
pub struct Sparx64HashBuilder(u64);

impl View for Sparx64HashBuilder {
    type V = u64;

    closed spec fn view(&self) -> u64 {
        self.0
    }
}

impl Sparx64HashBuilder {
    /// A builder whose hashers start from `state`.
    pub fn from_state(state: u64) -> (r: Self)
        ensures
            r@ == state,
    {
        Sparx64HashBuilder(state)
    }
}

impl BuildHasher for Sparx64HashBuilder {
    type Hasher = Sparx64Hasher;

    fn build_hasher(&self) -> (r: Sparx64Hasher)
        ensures
            r@ == self@,
    {
        Sparx64Hasher(self.0)
    }
}

impl Default for Sparx64HashBuilder {
    fn default() -> (r: Self)
        ensures
            r@ == 0x9E3779B97F4A7C15u64,
    {
        Sparx64HashBuilder(SPARX64_INIT)
    }
}

/// A `RandomState` holds keys drawn at random, so no value is specified
/// for what is built from one.
impl vstd::std_specs::convert::FromSpecImpl<&RandomState> for Sparx64HashBuilder {
    open spec fn obeys_from_spec() -> bool {
        false
    }

    open spec fn from_spec(v: &RandomState) -> Self {
        arbitrary()
    }
}

impl From<&RandomState> for Sparx64HashBuilder {
    fn from(state: &RandomState) -> Self {
        Sparx64HashBuilder(hash_str_with(state, "Sparx64"))
    }
}

} // verus!
