use std::collections::HashSet;
use std::hash::{BuildHasher, Hasher, RandomState};

use rand::rand_core::block::Generator;
use sparx_hash::rng::{fold_word, split_digest, CounterHashRngCore};
use sparx_hash::sparx128::{permute_sparx128, Sparx128HashBuilder, Sparx128Hasher};
use sparx_hash::sparx256::{Sparx256HashBuilder, Sparx256Hasher};
use sparx_hash::sparx64::{permute_sparx64, Sparx64HashBuilder, Sparx64Hasher};
use sparx_hash::DigestU128;

fn test_unique_hashes<T: Hasher>(hasher_creator: impl Fn() -> T) {
    let mut hashes = HashSet::with_capacity((1 << 24) + (1 << 16) + 512);
    hashes.insert(hasher_creator().finish());
    for i in 0..=u8::MAX {
        let mut hasher = hasher_creator();
        hasher.write_u8(i);
        let hash = hasher.finish();
        assert!(hashes.insert(hash), "Hash {hash} of {i} already exists");
    }
    for i in 0..=u16::MAX {
        let mut hasher = hasher_creator();
        hasher.write_u16(i);
        let hash = hasher.finish();
        assert!(hashes.insert(hash), "Hash {hash} of {i} already exists");
    }
    for i in 0..=(1u32 << 24) {
        let mut hasher = hasher_creator();
        hasher.write_u32(i);
        let hash = hasher.finish();
        assert!(hashes.insert(hash), "Hash {hash} of {i} already exists");
    }
}

fn test_avalanche<T: Hasher>(hasher_creator: impl Fn() -> T) {
    const MIN_HAMMING_DISTANCE: u32 = 16;
    let mut total_distance = 0;
    let hasher = hasher_creator();
    let empty_hash = hasher.finish();
    let mut hasher = hasher_creator();
    hasher.write_u128(0);
    let zero_hash = hasher.finish();
    let distance = (empty_hash ^ zero_hash).count_ones();
    assert!(distance >= MIN_HAMMING_DISTANCE);
    total_distance += distance;
    for i in 0..=127 {
        let input = 1u128 << i;
        let mut hasher = hasher_creator();
        hasher.write_u128(input);
        let hash = hasher.finish();
        let distance = (hash ^ zero_hash).count_ones();
        assert!(distance >= MIN_HAMMING_DISTANCE);
        total_distance += distance;
        let distance = (hash ^ empty_hash).count_ones();
        assert!(distance >= MIN_HAMMING_DISTANCE);
        total_distance += distance;
    }
    let average_distance = total_distance as f64 / 257.0;
    assert!(average_distance >= 31.0);
    assert!(average_distance <= 33.0);
}

#[test]
fn test_unique_hashes_64() {
    test_unique_hashes(Sparx64Hasher::default);
}

#[test]
fn test_avalanche_64() {
    test_avalanche(Sparx64Hasher::default);
}

#[test]
fn test_unique_hashes_128() {
    test_unique_hashes(Sparx128Hasher::default);
}

#[test]
fn test_avalanche_128() {
    test_avalanche(Sparx128Hasher::default);
}

#[test]
fn test_unique_hashes_256() {
    test_unique_hashes(Sparx256Hasher::default);
}

#[test]
fn test_avalanche_256() {
    test_avalanche(Sparx256Hasher::default);
}

fn hash64(bytes: &[u8]) -> Sparx64Hasher {
    let mut h = Sparx64Hasher::default();
    h.write(bytes);
    h
}

fn hash128(bytes: &[u8]) -> Sparx128Hasher {
    let mut h = Sparx128Hasher::default();
    h.write(bytes);
    h
}

fn hash256(bytes: &[u8]) -> Sparx256Hasher {
    let mut h = Sparx256Hasher::default();
    h.write(bytes);
    h
}

#[test]
fn permute_sparx64_values() {
    assert_eq!(permute_sparx64(0), 0x4002000002001);
    assert_eq!(permute_sparx64(1), 0x2000fe0202102);
    assert_eq!(permute_sparx64(0xdeadbeef), 0x42a63f7e31e31de);
    assert_eq!(permute_sparx64(u64::MAX - 1), 0xffffff7fdc205efe);
}

#[test]
fn permute_sparx64_all_ones_shift_wraps() {
    assert_eq!(permute_sparx64(u64::MAX), 0xfffc001ff8005ffd);
}

#[test]
fn permute_sparx128_values() {
    assert_eq!(permute_sparx128(0), 0x40000002000000020000001);
    assert_eq!(permute_sparx128(1), 0x18000001000002020000102);
    assert_eq!(permute_sparx128(0xdeadbeef), 0xff90a920888000041bd5bafe1d5b95de);
    assert_eq!(permute_sparx128(u128::MAX), 0xfffffffffc0000001ffff00020007ffd);
}

#[test]
fn finish_values() {
    assert_eq!(Sparx64Hasher::default().finish(), 0xdcc3d607a1ce2f74);
    assert_eq!(hash64(b"abc").finish(), 0x14bedd2cf12332b3);
    assert_eq!(Sparx128Hasher::default().finish(), 0x77bb60f136fcc7d0);
    assert_eq!(hash128(b"abc").finish(), 0x8bc8bce27f3fd441);
    assert_eq!(Sparx256Hasher::default().finish(), 0x632cf0cbd204b5db);
    assert_eq!(hash256(b"abc").finish(), 0x4ae0d5ef813ae69c);
}

#[test]
fn digest_values() {
    assert_eq!(Sparx128Hasher::default().finalize_u128(), 0xbf1daef124be109dc8a6ce001242d74d);
    assert_eq!(Sparx256Hasher::default().finalize_u128(), 0xb7f673060345cd6cd4da83cdd14178b7);
}

#[test]
fn empty_write_keeps_state() {
    assert_eq!(hash64(b"").finish(), Sparx64Hasher::default().finish());
    assert_eq!(hash128(b"").finish(), Sparx128Hasher::default().finish());
    assert_eq!(hash256(b"").finish(), Sparx256Hasher::default().finish());
}

#[test]
fn writes_split_at_even_length_compose() {
    let mut h = Sparx64Hasher::default();
    h.write(b"ab");
    h.write(b"cde");
    assert_eq!(h.finish(), hash64(b"abcde").finish());
    let mut h = Sparx128Hasher::default();
    h.write(b"ab");
    h.write(b"cde");
    assert_eq!(h.finalize_u128(), hash128(b"abcde").finalize_u128());
    let mut h = Sparx256Hasher::default();
    h.write(b"abcd");
    h.write(b"e");
    assert_eq!(h.finalize_u128(), hash256(b"abcde").finalize_u128());
}

#[test]
fn writes_split_at_odd_length_differ() {
    let mut h = Sparx64Hasher::default();
    h.write(b"abc");
    h.write(b"de");
    assert_ne!(h.finish(), hash64(b"abcde").finish());
    let mut h = Sparx128Hasher::default();
    h.write(b"abc");
    h.write(b"de");
    assert_ne!(h.finalize_u128(), hash128(b"abcde").finalize_u128());
    let mut h = Sparx256Hasher::default();
    h.write(b"abc");
    h.write(b"de");
    assert_ne!(h.finalize_u128(), hash256(b"abcde").finalize_u128());
}

#[test]
fn update_is_write() {
    let mut h = Sparx64Hasher::default();
    h.update(b"hello world");
    assert_eq!(h.finish(), hash64(b"hello world").finish());
    let mut h = Sparx128Hasher::default();
    h.update(b"hello world");
    assert_eq!(h.finish(), hash128(b"hello world").finish());
    let mut h = Sparx256Hasher::default();
    h.update(b"hello world");
    assert_eq!(h.finish(), hash256(b"hello world").finish());
}

#[test]
fn finalize_bytes_match_hash() {
    let h = hash64(b"xyz");
    let mut out = [0u8; 8];
    h.finalize_into(&mut out);
    assert_eq!(out, h.finish().to_le_bytes());

    let h = hash128(b"xyz");
    let mut out = [0u8; 16];
    h.finalize_into(&mut out);
    let digest = h.finalize_u128();
    assert_eq!(u128::from_le_bytes(out), digest);
    assert_eq!(h.finish(), digest as u64 ^ (digest >> 64) as u64);

    let h = hash256(b"xyz");
    let mut out = [0u8; 16];
    h.finalize_into(&mut out);
    let digest = h.finalize_u128();
    assert_eq!(u128::from_le_bytes(out), digest);
    assert_eq!(h.finish(), digest as u64 ^ (digest >> 64) as u64);
}

#[test]
fn sparx256_output_goes_through_sparx128() {
    let (a, b) = (0x0123_4567_89ab_cdef_0011_2233_4455_6677u128, 42u128);
    let h = Sparx256Hasher::from_state(a, b);
    let mut inner = Sparx128Hasher::from_state(a);
    inner.write_u128(b);
    assert_eq!(h.finish(), inner.finish());
    assert_eq!(h.finalize_u128(), inner.finalize_u128());
    let through = h.output_hasher(&b.to_ne_bytes());
    assert_eq!(through.finish(), inner.finish());
}

#[test]
fn sparx256_output_hasher_takes_given_lane_bytes() {
    let h = Sparx256Hasher::from_state(5, 0x0102_0304_0506_0708_090a_0b0c_0d0e_0f10);
    let mut le = Sparx128Hasher::from_state(5);
    le.write(&0x0102_0304_0506_0708_090a_0b0c_0d0e_0f10u128.to_le_bytes());
    let mut be = Sparx128Hasher::from_state(5);
    be.write(&0x0102_0304_0506_0708_090a_0b0c_0d0e_0f10u128.to_be_bytes());
    let lane = 0x0102_0304_0506_0708_090a_0b0c_0d0e_0f10u128;
    assert_eq!(h.output_hasher(&lane.to_le_bytes()).finish(), le.finish());
    assert_eq!(h.output_hasher(&lane.to_be_bytes()).finish(), be.finish());
    assert_ne!(le.finish(), be.finish());
}

#[test]
fn same_builder_same_writes_same_hash() {
    let b64 = Sparx64HashBuilder::from_state(0x1234);
    let (mut h1, mut h2) = (b64.build_hasher(), b64.build_hasher());
    for chunk in [&b"ab"[..], b"cde", b"", b"f"] {
        h1.write(chunk);
        h2.write(chunk);
    }
    assert_eq!(h1.finish(), h2.finish());
    let b128 = Sparx128HashBuilder::from_state_hashes(9, 10);
    let (mut h1, mut h2) = (b128.build_hasher(), b128.build_hasher());
    for chunk in [&b"ab"[..], b"cde", b"", b"f"] {
        h1.write(chunk);
        h2.write(chunk);
    }
    assert_eq!(h1.finish(), h2.finish());
    let b256 = Sparx256HashBuilder::from_state_hashes(1, 2, 3, 4);
    let (mut h1, mut h2) = (b256.build_hasher(), b256.build_hasher());
    for chunk in [&b"ab"[..], b"cde", b"", b"f"] {
        h1.write(chunk);
        h2.write(chunk);
    }
    assert_eq!(h1.finish(), h2.finish());
}

#[test]
fn default_builders_build_default_hashers() {
    assert_eq!(
        Sparx64HashBuilder::default().build_hasher().finish(),
        Sparx64Hasher::default().finish()
    );
    assert_eq!(
        Sparx128HashBuilder::default().build_hasher().finalize_u128(),
        Sparx128Hasher::default().finalize_u128()
    );
    assert_eq!(
        Sparx256HashBuilder::default().build_hasher().finalize_u128(),
        Sparx256Hasher::default().finalize_u128()
    );
}

#[test]
fn builders_from_state() {
    assert_eq!(
        Sparx64HashBuilder::from_state(7).build_hasher().finish(),
        Sparx64Hasher::from_state(7).finish()
    );
    assert_eq!(Sparx128HashBuilder::from_state_hashes(1, 2).build_hasher().finish(), 0xf691c94261a256e4);
    assert_eq!(
        Sparx128HashBuilder::from_state_hashes(1, 2).build_hasher().finish(),
        Sparx128Hasher::from_state((1u128 << 64) | 2).finish()
    );
    assert_eq!(
        Sparx256HashBuilder::from_state_hashes(1, 2, 3, 4).build_hasher().finalize_u128(),
        Sparx256Hasher::from_state((1u128 << 64) | 2, (3u128 << 64) | 4).finalize_u128()
    );
}

#[test]
fn random_state_builders_agree_with_hashers() {
    let state = RandomState::new();
    assert_eq!(
        Sparx64Hasher::from(&state).finish(),
        Sparx64HashBuilder::from(&state).build_hasher().finish()
    );
    assert_eq!(
        Sparx128Hasher::from(&state).finish(),
        Sparx128HashBuilder::from(&state).build_hasher().finish()
    );
    assert_eq!(
        Sparx256Hasher::from(&state).finish(),
        Sparx256HashBuilder::from(&state).build_hasher().finish()
    );
}

#[test]
fn fold_word_xors_halves() {
    assert_eq!(fold_word(0x1234_5678_9abc_def0), 0x1234_5678 ^ 0x9abc_def0);
    assert_eq!(fold_word(0), 0);
}

#[test]
fn counter_core_64_stream() {
    let mut core = CounterHashRngCore::<Sparx64Hasher>::from_seed([1, 2, 3, 4, 5, 6, 7, 8]);
    let mut out = [0u64; 1];
    core.generate(&mut out);
    assert_eq!(out, [0x2e467b1772e829c0]);
    core.generate(&mut out);
    assert_eq!(out, [0xc6fafa85266a4740]);
    core.generate(&mut out);
    assert_eq!(out, [0x5bf32c83a7c8ccd3]);
}

#[test]
fn counter_core_128_stream() {
    let mut seed = [0u8; 16];
    for (i, b) in seed.iter_mut().enumerate() {
        *b = i as u8 + 1;
    }
    let mut core = CounterHashRngCore::<Sparx128Hasher>::from_seed(seed);
    let mut out = [0u64; 2];
    core.generate(&mut out);
    assert_eq!(out, [0xfc26f9356bda3126, 0xfca5d7bde825eb11]);
    core.generate(&mut out);
    assert_eq!(out, [0x16ecb11c58a2ec6e, 0xc1a1cefbee963281]);
}

#[test]
fn counter_core_256_stream() {
    let mut seed = [0u8; 32];
    for (i, b) in seed.iter_mut().enumerate() {
        *b = i as u8 + 1;
    }
    let mut core = CounterHashRngCore::<Sparx256Hasher>::from_seed(seed);
    let mut out = [0u64; 2];
    core.generate(&mut out);
    assert_eq!(out, [0x8761598b471b718c, 0xf65e9ff529897057]);
    core.generate(&mut out);
    assert_eq!(out, [0x208dcea50c82496a, 0x12864fbb63798bee]);
}

#[test]
fn split_digest_low_then_high() {
    assert_eq!(
        split_digest(0x0011_2233_4455_6677_8899_aabb_ccdd_eeffu128),
        [0x8899_aabb_ccdd_eeff, 0x0011_2233_4455_6677]
    );
}

#[test]
fn sparx256_finish_and_digest_agree() {
    let h = hash256(b"agreement");
    let digest = h.finalize_u128();
    assert_eq!(h.finish(), digest as u64 ^ (digest >> 64) as u64);
    assert_eq!(h.finish(), h.finish());
}
