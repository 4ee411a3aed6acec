//! The counter-mode generator core: each block is the digest of the hasher
//! after the next counter value is written into it.
use vstd::prelude::*;
use core::hash::Hasher;
use rand::rand_core::block::Generator;
use crate::DigestU128;
use crate::bits::{le_bytes128, to_le_bytes_u128};
use crate::sparx64::{Sparx64Hasher, absorb64, finish64, lemma_absorb64_concat};
use crate::sparx128::{Sparx128Hasher, absorb128, digest128, finish128, lemma_absorb128_concat};
use crate::sparx256::{Sparx256Hasher, absorb256, lemma_absorb256_concat, output_state256};

verus! {

/// The multiplier that spreads a seed's hash over the 128-bit counter.
pub const GOLDEN_RATIO_MULTIPLIER: u128 = 0x9e37_79b9_7f4a_7c15_f39c_c060_5ced_c835;

/// The hasher every written counter is absorbed into, and the next counter value.
pub struct CounterHashRngCore<T> {
    hasher: T,
    counter: u128,
}

impl<T> CounterHashRngCore<T> {
    /// The hasher, holding everything absorbed so far.
    pub closed spec fn hasher(&self) -> T {
        self.hasher
    }

    /// The counter value that the next block writes.
    pub closed spec fn counter(&self) -> u128 {
        self.counter
    }
}

/// The low and the high 64 bits of `x`.
pub open spec fn split_words(x: u128) -> Seq<u64> {
    seq![x as u64, (x >> 64u128) as u64]
}

/// The bytes written into the hasher by `blocks` blocks generated from `counter`:
/// the little-endian bytes of `counter`, `counter + 1`, ... (modulo 2^128), in order.
pub open spec fn counter_stream(counter: u128, blocks: nat) -> Seq<u8>
    decreases blocks,
{
    if blocks == 0 {
        Seq::empty()
    } else {
        counter_stream(counter, (blocks - 1) as nat) + le_bytes128(
            counter.wrapping_add((blocks - 1) as u128),
        )
    }
}

proof fn lemma_counter_stream_len(counter: u128, blocks: nat)
    ensures
        counter_stream(counter, blocks).len() == 16 * blocks,
        counter_stream(counter, blocks).len() % 2 == 0,
    decreases blocks,
{
    if blocks > 0 {
        lemma_counter_stream_len(counter, (blocks - 1) as nat);
    }
}

/// A SPARX-64 state after `blocks` blocks, each absorbing the next counter.
pub open spec fn after_blocks64(state: u64, counter: u128, blocks: nat) -> u64
    decreases blocks,
{
    if blocks == 0 {
        state
    } else {
        absorb64(
            after_blocks64(state, counter, (blocks - 1) as nat),
            le_bytes128(counter.wrapping_add((blocks - 1) as u128)),
        )
    }
}

/// A SPARX-128 state after `blocks` blocks, each absorbing the next counter.
pub open spec fn after_blocks128(state: u128, counter: u128, blocks: nat) -> u128
    decreases blocks,
{
    if blocks == 0 {
        state
    } else {
        absorb128(
            after_blocks128(state, counter, (blocks - 1) as nat),
            le_bytes128(counter.wrapping_add((blocks - 1) as u128)),
        )
    }
}

/// A SPARX-256 state after `blocks` blocks, each absorbing the next counter.
pub open spec fn after_blocks256(state: (u128, u128), counter: u128, blocks: nat) -> (u128, u128)
    decreases blocks,
{
    if blocks == 0 {
        state
    } else {
        absorb256(
            after_blocks256(state, counter, (blocks - 1) as nat),
            le_bytes128(counter.wrapping_add((blocks - 1) as u128)),
        )
    }
}

/// Counter mode: the hasher of a SPARX-64 core, after any number of blocks,
/// holds the hash state of the whole stream of counters written so far.
pub proof fn lemma_blocks64_hash_counter_stream(state: u64, counter: u128, blocks: nat)
    ensures
        after_blocks64(state, counter, blocks) == absorb64(state, counter_stream(counter, blocks)),
    decreases blocks,
{
    if blocks > 0 {
        let k: nat = (blocks - 1) as nat;
        lemma_blocks64_hash_counter_stream(state, counter, k);
        lemma_counter_stream_len(counter, k);
        lemma_absorb64_concat(
            state,
            counter_stream(counter, k),
            le_bytes128(counter.wrapping_add(k as u128)),
        );
    }
}

/// Counter mode: the hasher of a SPARX-128 core, after any number of blocks,
/// holds the hash state of the whole stream of counters written so far.
pub proof fn lemma_blocks128_hash_counter_stream(state: u128, counter: u128, blocks: nat)
    ensures
        after_blocks128(state, counter, blocks) == absorb128(
            state,
            counter_stream(counter, blocks),
        ),
    decreases blocks,
{
    if blocks > 0 {
        let k: nat = (blocks - 1) as nat;
        lemma_blocks128_hash_counter_stream(state, counter, k);
        lemma_counter_stream_len(counter, k);
        lemma_absorb128_concat(
            state,
            counter_stream(counter, k),
            le_bytes128(counter.wrapping_add(k as u128)),
        );
    }
}

/// Counter mode: the hasher of a SPARX-256 core, after any number of blocks,
/// holds the hash state of the whole stream of counters written so far.
pub proof fn lemma_blocks256_hash_counter_stream(state: (u128, u128), counter: u128, blocks: nat)
    ensures
        after_blocks256(state, counter, blocks) == absorb256(
            state,
            counter_stream(counter, blocks),
        ),
    decreases blocks,
{
    if blocks > 0 {
        let k: nat = (blocks - 1) as nat;
        lemma_blocks256_hash_counter_stream(state, counter, k);
        lemma_counter_stream_len(counter, k);
        lemma_absorb256_concat(
            state,
            counter_stream(counter, k),
            le_bytes128(counter.wrapping_add(k as u128)),
        );
    }
}

/// The block of two words a 128-bit digest gives: its low, then its high half.
pub fn split_digest(digest: u128) -> (r: [u64; 2])
    ensures
        r@ == split_words(digest),
{
    let r: [u64; 2] = [digest as u64, (digest >> 64) as u64];
    assert(r@ =~= split_words(digest));
    r
}

/// A `u32` drawn from a 64-bit word: its two halves xored together.
pub fn fold_word(next_u64: u64) -> (r: u32)
    ensures
        r == (next_u64 as u32) ^ ((next_u64 >> 32u64) as u32),
{
    next_u64 as u32 ^ (next_u64 >> 32) as u32
}

impl Generator for CounterHashRngCore<Sparx64Hasher> {
    type Output = [u64; 1];

    fn generate(&mut self, output: &mut [u64; 1])
        ensures
            final(self).hasher()@ == absorb64(old(self).hasher()@, le_bytes128(old(self).counter())),
            final(self).counter() == old(self).counter().wrapping_add(1),
            final(output)@ == seq![finish64(final(self).hasher()@)],
    {
        let bytes: [u8; 16] = to_le_bytes_u128(self.counter);
        self.hasher.update(bytes.as_slice());
        self.counter = self.counter.wrapping_add(1);
        output[0] = self.hasher.finish();
        assert(output@ =~= seq![finish64(self.hasher@)]);
    }
}

impl Generator for CounterHashRngCore<Sparx128Hasher> {
    type Output = [u64; 2];

    fn generate(&mut self, output: &mut [u64; 2])
        ensures
            final(self).hasher()@ == absorb128(old(self).hasher()@, le_bytes128(old(self).counter())),
            final(self).counter() == old(self).counter().wrapping_add(1),
            final(output)@ == split_words(digest128(final(self).hasher()@)),
    {
        let bytes: [u8; 16] = to_le_bytes_u128(self.counter);
        self.hasher.update(bytes.as_slice());
        self.counter = self.counter.wrapping_add(1);
        *output = split_digest(self.hasher.finalize_u128());
    }
}

impl Generator for CounterHashRngCore<Sparx256Hasher> {
    type Output = [u64; 2];

    fn generate(&mut self, output: &mut [u64; 2])
        ensures
            final(self).hasher()@ == absorb256(old(self).hasher()@, le_bytes128(old(self).counter())),
            final(self).counter() == old(self).counter().wrapping_add(1),
            final(output)@ == split_words(digest128(output_state256(final(self).hasher()@))),
    {
        let bytes: [u8; 16] = to_le_bytes_u128(self.counter);
        self.hasher.update(bytes.as_slice());
        self.counter = self.counter.wrapping_add(1);
        *output = split_digest(self.hasher.finalize_u128());
    }
}

impl CounterHashRngCore<Sparx64Hasher> {
    /// The core seeded with `seed`: a default hasher that has absorbed the seed,
    /// and a counter of its hash times the golden-ratio multiplier (modulo 2^128).
    pub fn from_seed(seed: [u8; 8]) -> (r: Self)
        ensures
            r.hasher()@ == absorb64(0x9E3779B97F4A7C15u64, seed@),
            r.counter() == (finish64(r.hasher()@) as u128).wrapping_mul(0x9e37_79b9_7f4a_7c15_f39c_c060_5ced_c835u128),
    {
        let mut hasher: Sparx64Hasher = Sparx64Hasher::default();
        hasher.write(seed.as_slice());
        let counter: u128 = (hasher.clone().finish() as u128).wrapping_mul(GOLDEN_RATIO_MULTIPLIER);
        CounterHashRngCore { hasher, counter }
    }
}

impl CounterHashRngCore<Sparx128Hasher> {
    /// The core seeded with `seed`: a default hasher that has absorbed the seed,
    /// and a counter of its hash times the golden-ratio multiplier (modulo 2^128).
    pub fn from_seed(seed: [u8; 16]) -> (r: Self)
        ensures
            r.hasher()@ == absorb128(0xf39cc0605cedc834_1082276bf3a27251u128, seed@),
            r.counter() == (finish128(r.hasher()@) as u128).wrapping_mul(0x9e37_79b9_7f4a_7c15_f39c_c060_5ced_c835u128),
    {
        let mut hasher: Sparx128Hasher = Sparx128Hasher::default();
        hasher.write(seed.as_slice());
        let counter: u128 = (hasher.clone().finish() as u128).wrapping_mul(GOLDEN_RATIO_MULTIPLIER);
        CounterHashRngCore { hasher, counter }
    }
}

impl CounterHashRngCore<Sparx256Hasher> {
    /// The core seeded with `seed`: a default hasher that has absorbed the seed,
    /// and a counter of its hash times the golden-ratio multiplier (modulo 2^128).
    pub fn from_seed(seed: [u8; 32]) -> (r: Self)
        ensures
            r.hasher()@ == absorb256(
                (0xf39cc0605cedc834_1082276bf3a27251u128, 0xf39cc0605cedc834_1082276bf3a27251u128),
                seed@,
            ),
            r.counter() == (finish128(output_state256(r.hasher()@)) as u128).wrapping_mul(
                0x9e37_79b9_7f4a_7c15_f39c_c060_5ced_c835u128,
            ),
    {
        let mut hasher: Sparx256Hasher = Sparx256Hasher::default();
        hasher.write(seed.as_slice());
        let counter: u128 = (hasher.clone().finish() as u128).wrapping_mul(GOLDEN_RATIO_MULTIPLIER);
        CounterHashRngCore { hasher, counter }
    }
}

} // verus!
