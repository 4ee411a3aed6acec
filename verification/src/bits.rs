//! Mathematical meaning of the integer primitives the permutations are built
//! from, and the std calls that compute them.
use vstd::prelude::*;
use core::hash::BuildHasher;
use std::hash::RandomState;

verus! {

/// Number of one bits in `x`.
pub open spec fn popcount64(x: u64) -> nat
    decreases x,
{
    if x == 0 {
        0
    } else {
        (x % 2) as nat + popcount64(x / 2)
    }
}

/// Number of one bits in `x`.
pub open spec fn popcount128(x: u128) -> nat
    decreases x,
{
    if x == 0 {
        0
    } else {
        (x % 2) as nat + popcount128(x / 2)
    }
}

/// `x` rotated left by `n` bits (taken modulo the width).
pub open spec fn rotl64(x: u64, n: u32) -> u64 {
    let k: u32 = n % 64;
    if k == 0 {
        x
    } else {
        (x << k) | (x >> ((64 - k) as u32))
    }
}

/// `x` rotated left by `n` bits (taken modulo the width).
pub open spec fn rotl128(x: u128, n: u32) -> u128 {
    let k: u32 = n % 128;
    if k == 0 {
        x
    } else {
        (x << k) | (x >> ((128 - k) as u32))
    }
}

/// `x` rotated right by `n` bits (taken modulo the width).
pub open spec fn rotr128(x: u128, n: u32) -> u128 {
    let k: u32 = n % 128;
    if k == 0 {
        x
    } else {
        (x >> k) | (x << ((128 - k) as u32))
    }
}

/// The low `n` bits of `x` in reverse order, as an `n`-bit number.
pub open spec fn reverse_low64(x: u64, n: nat) -> u64
    decreases n,
{
    if n == 0 {
        0
    } else {
        reverse_low64(x >> 1u64, (n - 1) as nat) | ((x & 1) << ((n - 1) as u64))
    }
}

/// `x` with the order of its 64 bits reversed.
pub open spec fn reverse64(x: u64) -> u64 {
    reverse_low64(x, 64)
}

/// The low `n` bits of `x` in reverse order, as an `n`-bit number.
pub open spec fn reverse_low128(x: u128, n: nat) -> u128
    decreases n,
{
    if n == 0 {
        0
    } else {
        reverse_low128(x >> 1u128, (n - 1) as nat) | ((x & 1) << ((n - 1) as u128))
    }
}

/// `x` with the order of its 128 bits reversed.
pub open spec fn reverse128(x: u128) -> u128 {
    reverse_low128(x, 128)
}

/// The little-endian bytes of `x`.
pub open spec fn le_bytes64(x: u64) -> Seq<u8> {
    Seq::new(8, |i: int| (x >> ((8 * i) as u64)) as u8)
}

/// The little-endian bytes of `x`.
pub open spec fn le_bytes128(x: u128) -> Seq<u8> {
    Seq::new(16, |i: int| (x >> ((8 * i) as u128)) as u8)
}

/// The big-endian bytes of `x`.
pub open spec fn be_bytes128(x: u128) -> Seq<u8> {
    Seq::new(16, |i: int| (x >> ((8 * (15 - i)) as u128)) as u8)
}

/// The bytes of `x` in the executing hardware's byte order.
pub open spec fn ne_bytes128(x: u128) -> Seq<u8> {
    if vstd::endian::endianness() is Little {
        le_bytes128(x)
    } else {
        be_bytes128(x)
    }
}

/// Rotating left by `n` moves bit `i` of `x` to bit `(i + n) mod 64`.
pub proof fn lemma_rotl64_moves_bits(x: u64, n: u32, i: u64)
    requires
        i < 64,
    ensures
        (rotl64(x, n) >> (((i + n) % 64) as u64)) & 1 == (x >> i) & 1,
{
    let k: u64 = (n % 64) as u64;
    let j: u64 = ((i + n) % 64) as u64;
    assert(j == (i + k) % 64);
    if k == 0 {
        assert(j == i);
    } else {
        assert(rotl64(x, n) == (x << k) | (x >> ((64 - k) as u64))) by (bit_vector)
            requires
                rotl64(x, n) == (x << ((n % 64) as u32)) | (x >> ((64 - (n % 64)) as u32)),
                k == (n % 64) as u64,
                0 < k < 64,
        ;
        if i + k < 64 {
            assert(j == i + k);
            assert((((x << k) | (x >> ((64 - k) as u64))) >> j) & 1 == (x >> i) & 1) by (bit_vector)
                requires
                    0 < k < 64,
                    i < 64,
                    j < 64,
                    j == i + k,
            ;
        } else {
            assert(j == i + k - 64);
            assert((((x << k) | (x >> ((64 - k) as u64))) >> j) & 1 == (x >> i) & 1) by (bit_vector)
                requires
                    0 < k < 64,
                    i < 64,
                    i + k >= 64,
                    j == i + k - 64,
            ;
        }
    }
}

/// Rotating left by `n` moves bit `i` of `x` to bit `(i + n) mod 128`.
pub proof fn lemma_rotl128_moves_bits(x: u128, n: u32, i: u128)
    requires
        i < 128,
    ensures
        (rotl128(x, n) >> (((i + n) % 128) as u128)) & 1 == (x >> i) & 1,
{
    let k: u128 = (n % 128) as u128;
    let j: u128 = ((i + n) % 128) as u128;
    assert(j == (i + k) % 128);
    if k == 0 {
        assert(j == i);
    } else {
        assert(rotl128(x, n) == (x << k) | (x >> ((128 - k) as u128))) by (bit_vector)
            requires
                rotl128(x, n) == (x << ((n % 128) as u32)) | (x >> ((128 - (n % 128)) as u32)),
                k == (n % 128) as u128,
                0 < k < 128,
        ;
        if i + k < 128 {
            assert((((x << k) | (x >> ((128 - k) as u128))) >> j) & 1 == (x >> i) & 1)
                by (bit_vector)
                requires
                    0 < k < 128,
                    i < 128,
                    j < 128,
                    j == i + k,
            ;
        } else {
            assert((((x << k) | (x >> ((128 - k) as u128))) >> j) & 1 == (x >> i) & 1)
                by (bit_vector)
                requires
                    0 < k < 128,
                    i < 128,
                    i + k >= 128,
                    j == i + k - 128,
            ;
        }
    }
}

/// Rotating right by `n` moves bit `(i + n) mod 128` of `x` to bit `i`.
pub proof fn lemma_rotr128_moves_bits(x: u128, n: u32, i: u128)
    requires
        i < 128,
    ensures
        (rotr128(x, n) >> i) & 1 == (x >> (((i + n) % 128) as u128)) & 1,
{
    let k: u128 = (n % 128) as u128;
    let j: u128 = ((i + n) % 128) as u128;
    assert(j == (i + k) % 128);
    if k == 0 {
        assert(j == i);
    } else {
        assert(rotr128(x, n) == (x >> k) | (x << ((128 - k) as u128))) by (bit_vector)
            requires
                rotr128(x, n) == (x >> ((n % 128) as u32)) | (x << ((128 - (n % 128)) as u32)),
                k == (n % 128) as u128,
                0 < k < 128,
        ;
        if i + k < 128 {
            assert((((x >> k) | (x << ((128 - k) as u128))) >> i) & 1 == (x >> j) & 1)
                by (bit_vector)
                requires
                    0 < k < 128,
                    i < 128,
                    j < 128,
                    j == i + k,
            ;
        } else {
            assert((((x >> k) | (x << ((128 - k) as u128))) >> i) & 1 == (x >> j) & 1)
                by (bit_vector)
                requires
                    0 < k < 128,
                    i < 128,
                    i + k >= 128,
                    j == i + k - 128,
            ;
        }
    }
}

proof fn lemma_reverse_low64_bits(x: u64, n: nat, j: u64)
    requires
        n <= 64,
        j < 64,
    ensures
        (reverse_low64(x, n) >> j) & 1 == (if (j as nat) < n {
            (x >> ((n - 1 - j) as u64)) & 1
        } else {
            0
        }),
    decreases n,
{
    if n == 0 {
        assert((0u64 >> j) & 1 == 0) by (bit_vector);
    } else {
        let m: u64 = (n - 1) as u64;
        let r: u64 = reverse_low64(x >> 1u64, (n - 1) as nat);
        assert(reverse_low64(x, n) == r | ((x & 1) << m));
        lemma_reverse_low64_bits(x >> 1u64, (n - 1) as nat, j);
        if j < m {
            assert(((r | ((x & 1) << m)) >> j) & 1 == (r >> j) & 1) by (bit_vector)
                requires
                    j < m,
                    m < 64,
            ;
            assert(((x >> 1u64) >> ((m - 1 - j) as u64)) & 1 == (x >> ((m - j) as u64)) & 1)
                by (bit_vector)
                requires
                    j < m,
                    m < 64,
            ;
        } else if j == m {
            assert(((r | ((x & 1) << m)) >> j) & 1 == (x >> 0u64) & 1) by (bit_vector)
                requires
                    (r >> j) & 1 == 0,
                    j == m,
                    m < 64,
            ;
        } else {
            assert(((r | ((x & 1) << m)) >> j) & 1 == 0) by (bit_vector)
                requires
                    (r >> j) & 1 == 0,
                    j > m,
                    j < 64,
            ;
        }
    }
}

/// Reversing the bits of `x` moves bit `64 - 1 - i` to bit `i`.
pub proof fn lemma_reverse64_moves_bits(x: u64, i: u64)
    requires
        i < 64,
    ensures
        (reverse64(x) >> i) & 1 == (x >> ((64 - 1 - i) as u64)) & 1,
{
    lemma_reverse_low64_bits(x, 64, i);
}

proof fn lemma_reverse_low128_bits(x: u128, n: nat, j: u128)
    requires
        n <= 128,
        j < 128,
    ensures
        (reverse_low128(x, n) >> j) & 1 == (if (j as nat) < n {
            (x >> ((n - 1 - j) as u128)) & 1
        } else {
            0
        }),
    decreases n,
{
    if n == 0 {
        assert((0u128 >> j) & 1 == 0) by (bit_vector);
    } else {
        let m: u128 = (n - 1) as u128;
        let r: u128 = reverse_low128(x >> 1u128, (n - 1) as nat);
        assert(reverse_low128(x, n) == r | ((x & 1) << m));
        lemma_reverse_low128_bits(x >> 1u128, (n - 1) as nat, j);
        if j < m {
            assert(((r | ((x & 1) << m)) >> j) & 1 == (r >> j) & 1) by (bit_vector)
                requires
                    j < m,
                    m < 128,
            ;
            assert(((x >> 1u128) >> ((m - 1 - j) as u128)) & 1 == (x >> ((m - j) as u128)) & 1)
                by (bit_vector)
                requires
                    j < m,
                    m < 128,
            ;
        } else if j == m {
            assert(((r | ((x & 1) << m)) >> j) & 1 == (x >> 0u128) & 1) by (bit_vector)
                requires
                    (r >> j) & 1 == 0,
                    j == m,
                    m < 128,
            ;
        } else {
            assert(((r | ((x & 1) << m)) >> j) & 1 == 0) by (bit_vector)
                requires
                    (r >> j) & 1 == 0,
                    j > m,
                    j < 128,
            ;
        }
    }
}

/// Reversing the bits of `x` moves bit `128 - 1 - i` to bit `i`.
pub proof fn lemma_reverse128_moves_bits(x: u128, i: u128)
    requires
        i < 128,
    ensures
        (reverse128(x) >> i) & 1 == (x >> ((128 - 1 - i) as u128)) & 1,
{
    lemma_reverse_low128_bits(x, 128, i);
}

/// The number of one bits among bit positions `0..n` of `x`.
pub open spec fn ones_below64(x: u64, n: nat) -> nat
    decreases n,
{
    if n == 0 {
        0
    } else {
        ones_below64(x, (n - 1) as nat) + ((x >> ((n - 1) as u64)) & 1) as nat
    }
}

proof fn lemma_ones_below64_peel(x: u64, n: nat)
    requires
        n < 64,
    ensures
        ones_below64(x, n + 1) == (x & 1) as nat + ones_below64(x >> 1u64, n),
    decreases n,
{
    if n == 0 {
        assert((x >> 0u64) & 1 == x & 1) by (bit_vector);
        assert(ones_below64(x, 1) == ones_below64(x, 0) + ((x >> 0u64) & 1) as nat);
    } else {
        lemma_ones_below64_peel(x, (n - 1) as nat);
        let k: u64 = n as u64;
        assert(ones_below64(x, n + 1) == ones_below64(x, n) + ((x >> k) & 1) as nat);
        assert(ones_below64(x >> 1u64, n) == ones_below64(x >> 1u64, (n - 1) as nat) + (((x >> 1u64)
            >> ((k - 1) as u64)) & 1) as nat);
        assert((x >> k) & 1 == ((x >> 1u64) >> ((k - 1) as u64)) & 1) by (bit_vector)
            requires
                0 < k < 64,
        ;
    }
}

proof fn lemma_ones_below64_zero(n: nat)
    requires
        n <= 64,
    ensures
        ones_below64(0, n) == 0,
    decreases n,
{
    if n > 0 {
        lemma_ones_below64_zero((n - 1) as nat);
        let k: u64 = (n - 1) as u64;
        assert((0u64 >> k) & 1 == 0) by (bit_vector);
    }
}

/// The popcount of `x` is the number of its 64 bit positions that hold a one.
pub proof fn lemma_popcount64_counts_bits(x: u64)
    ensures
        popcount64(x) == ones_below64(x, 64),
    decreases x,
{
    if x == 0 {
        lemma_ones_below64_zero(64);
    } else {
        let y: u64 = x >> 1u64;
        assert(x % 2 == x & 1 && x / 2 == y && y < x) by (bit_vector)
            requires
                y == x >> 1u64,
                x != 0,
        ;
        lemma_popcount64_counts_bits(y);
        lemma_ones_below64_peel(x, (64 - 1) as nat);
        assert((y >> ((64 - 1) as u64)) & 1 == 0) by (bit_vector)
            requires
                y == x >> 1u64,
        ;
        assert(ones_below64(y, 64) == ones_below64(y, (64 - 1) as nat));
    }
}

/// The number of one bits among bit positions `0..n` of `x`.
pub open spec fn ones_below128(x: u128, n: nat) -> nat
    decreases n,
{
    if n == 0 {
        0
    } else {
        ones_below128(x, (n - 1) as nat) + ((x >> ((n - 1) as u128)) & 1) as nat
    }
}

proof fn lemma_ones_below128_peel(x: u128, n: nat)
    requires
        n < 128,
    ensures
        ones_below128(x, n + 1) == (x & 1) as nat + ones_below128(x >> 1u128, n),
    decreases n,
{
    if n == 0 {
        assert((x >> 0u128) & 1 == x & 1) by (bit_vector);
        assert(ones_below128(x, 1) == ones_below128(x, 0) + ((x >> 0u128) & 1) as nat);
    } else {
        lemma_ones_below128_peel(x, (n - 1) as nat);
        let k: u128 = n as u128;
        assert(ones_below128(x, n + 1) == ones_below128(x, n) + ((x >> k) & 1) as nat);
        assert(ones_below128(x >> 1u128, n) == ones_below128(x >> 1u128, (n - 1) as nat) + (((x >> 1u128)
            >> ((k - 1) as u128)) & 1) as nat);
        assert((x >> k) & 1 == ((x >> 1u128) >> ((k - 1) as u128)) & 1) by (bit_vector)
            requires
                0 < k < 128,
        ;
    }
}

proof fn lemma_ones_below128_zero(n: nat)
    requires
        n <= 128,
    ensures
        ones_below128(0, n) == 0,
    decreases n,
{
    if n > 0 {
        lemma_ones_below128_zero((n - 1) as nat);
        let k: u128 = (n - 1) as u128;
        assert((0u128 >> k) & 1 == 0) by (bit_vector);
    }
}

/// The popcount of `x` is the number of its 128 bit positions that hold a one.
pub proof fn lemma_popcount128_counts_bits(x: u128)
    ensures
        popcount128(x) == ones_below128(x, 128),
    decreases x,
{
    if x == 0 {
        lemma_ones_below128_zero(128);
    } else {
        let y: u128 = x >> 1u128;
        assert(x % 2 == x & 1 && x / 2 == y && y < x) by (bit_vector)
            requires
                y == x >> 1u128,
                x != 0,
        ;
        lemma_popcount128_counts_bits(y);
        lemma_ones_below128_peel(x, (128 - 1) as nat);
        assert((y >> ((128 - 1) as u128)) & 1 == 0) by (bit_vector)
            requires
                y == x >> 1u128,
        ;
        assert(ones_below128(y, 128) == ones_below128(y, (128 - 1) as nat));
    }
}

/// The number whose little-endian bytes are `bytes`.
pub open spec fn le_value(bytes: Seq<u8>) -> nat
    decreases bytes.len(),
{
    if bytes.len() == 0 {
        0
    } else {
        bytes[0] as nat + 256 * le_value(bytes.drop_first())
    }
}

proof fn lemma_le_value_suffix(x: u128, k: nat)
    requires
        k <= 15,
    ensures
        le_value(le_bytes128(x).subrange(k as int, 16)) == (x >> ((8 * k) as u128)),
    decreases 15 - k,
{
    let bytes: Seq<u8> = le_bytes128(x);
    let suffix: Seq<u8> = bytes.subrange(k as int, 16);
    let s: u128 = (8 * k) as u128;
    assert(suffix[0] == (x >> s) as u8);
    assert(le_value(suffix) == suffix[0] as nat + 256 * le_value(suffix.drop_first()));
    if k == 15 {
        assert(s == 120);
        assert(suffix.drop_first() =~= Seq::<u8>::empty());
        assert((x >> 120u128) as u8 as int == (x >> 120u128)) by (bit_vector);
    } else {
        lemma_le_value_suffix(x, k + 1);
        assert(suffix.drop_first() =~= bytes.subrange((k + 1) as int, 16));
        assert(((8 * (k + 1)) as u128) == s + 8);
        assert(s <= 112 ==> (x >> s) as u8 as int + 256 * (x >> ((s + 8) as u128)) == (x >> s))
            by (bit_vector);
    }
}

/// Reading the little-endian bytes of `x` back gives `x`.
pub proof fn lemma_le_bytes128_read_back(x: u128)
    ensures
        le_value(le_bytes128(x)) == x,
{
    lemma_le_value_suffix(x, 0);
    assert(le_bytes128(x).subrange(0, 16) =~= le_bytes128(x));
    assert(x >> 0u128 == x) by (bit_vector);
}

proof fn lemma_le_value_suffix64(x: u64, k: nat)
    requires
        k <= 7,
    ensures
        le_value(le_bytes64(x).subrange(k as int, 8)) == (x >> ((8 * k) as u64)),
    decreases 7 - k,
{
    let bytes: Seq<u8> = le_bytes64(x);
    let suffix: Seq<u8> = bytes.subrange(k as int, 8);
    let s: u64 = (8 * k) as u64;
    assert(suffix[0] == (x >> s) as u8);
    assert(le_value(suffix) == suffix[0] as nat + 256 * le_value(suffix.drop_first()));
    if k == 7 {
        assert(s == 56);
        assert(suffix.drop_first() =~= Seq::<u8>::empty());
        assert((x >> 56u64) as u8 as int == (x >> 56u64)) by (bit_vector);
    } else {
        lemma_le_value_suffix64(x, k + 1);
        assert(suffix.drop_first() =~= bytes.subrange((k + 1) as int, 8));
        assert(((8 * (k + 1)) as u64) == s + 8);
        assert(s <= 48 ==> (x >> s) as u8 as int + 256 * (x >> ((s + 8) as u64)) == (x >> s))
            by (bit_vector);
    }
}

/// Reading the little-endian bytes of `x` back gives `x`.
pub proof fn lemma_le_bytes64_read_back(x: u64)
    ensures
        le_value(le_bytes64(x)) == x,
{
    lemma_le_value_suffix64(x, 0);
    assert(le_bytes64(x).subrange(0, 8) =~= le_bytes64(x));
    assert(x >> 0u64 == x) by (bit_vector);
}

/// The big-endian bytes of `x` are its little-endian bytes in reverse order, and
/// the native bytes are one or the other as the hardware's byte order is.
pub proof fn lemma_be_ne_bytes128(x: u128)
    ensures
        be_bytes128(x) == le_bytes128(x).reverse(),
        ne_bytes128(x) == (if vstd::endian::endianness() is Little {
            le_bytes128(x)
        } else {
            le_bytes128(x).reverse()
        }),
{
    assert(be_bytes128(x) =~= le_bytes128(x).reverse());
}

/// `u64::count_ones`: the number of ones in the binary representation.
#[verifier::external_body]
pub(crate) fn count_ones_u64(x: u64) -> (r: u32)
    ensures
        r == popcount64(x),
{
    x.count_ones()
}

/// `u128::count_ones`: the number of ones in the binary representation.
#[verifier::external_body]
pub(crate) fn count_ones_u128(x: u128) -> (r: u32)
    ensures
        r == popcount128(x),
{
    x.count_ones()
}

/// `u64::rotate_left`: shifts left by `n`, the bits shifted out re-entering at the low end.
#[verifier::external_body]
pub(crate) fn rotate_left_u64(x: u64, n: u32) -> (r: u64)
    ensures
        r == rotl64(x, n),
{
    x.rotate_left(n)
}

/// `u128::rotate_left`: shifts left by `n`, the bits shifted out re-entering at the low end.
#[verifier::external_body]
pub(crate) fn rotate_left_u128(x: u128, n: u32) -> (r: u128)
    ensures
        r == rotl128(x, n),
{
    x.rotate_left(n)
}

/// `u128::rotate_right`: shifts right by `n`, the bits shifted out re-entering at the high end.
#[verifier::external_body]
pub(crate) fn rotate_right_u128(x: u128, n: u32) -> (r: u128)
    ensures
        r == rotr128(x, n),
{
    x.rotate_right(n)
}

/// `u64::reverse_bits`: the least significant bit becomes the most significant, and so on.
#[verifier::external_body]
pub(crate) fn reverse_bits_u64(x: u64) -> (r: u64)
    ensures
        r == reverse64(x),
{
    x.reverse_bits()
}

/// `u128::reverse_bits`: the least significant bit becomes the most significant, and so on.
#[verifier::external_body]
pub(crate) fn reverse_bits_u128(x: u128) -> (r: u128)
    ensures
        r == reverse128(x),
{
    x.reverse_bits()
}

/// `u64::to_le_bytes`: the memory representation in little-endian byte order.
#[verifier::external_body]
pub(crate) fn to_le_bytes_u64(x: u64) -> (r: [u8; 8])
    ensures
        r@ == le_bytes64(x),
{
    x.to_le_bytes()
}

/// `u128::to_le_bytes`: the memory representation in little-endian byte order.
#[verifier::external_body]
pub(crate) fn to_le_bytes_u128(x: u128) -> (r: [u8; 16])
    ensures
        r@ == le_bytes128(x),
{
    x.to_le_bytes()
}

/// `u128::to_ne_bytes`: the memory representation in the target's native byte
/// order, little- or big-endian as the hardware is.
#[verifier::external_body]
pub(crate) fn to_ne_bytes_u128(x: u128) -> (r: [u8; 16])
    ensures
        r@ == ne_bytes128(x),
{
    x.to_ne_bytes()
}

/// `BuildHasher::hash_one` of `RandomState` on a string. The keys of a
/// `RandomState` are drawn at random, so nothing is stated of the result.
#[verifier::external_body]
pub(crate) fn hash_str_with(state: &RandomState, s: &str) -> u64 {
    state.hash_one(s)
}

} // verus!
