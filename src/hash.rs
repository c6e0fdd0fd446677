//! Turning a byte string into the four 64-bit words that the probe indices
//! are derived from.
use fasthash::FastHash;
use vstd::prelude::*;

verus! {

/// 2^64, the modulus of 64-bit wraparound arithmetic.
pub open spec fn word_modulus() -> int {
    0x1_0000_0000_0000_0000
}

/// The high 64 bits of a 128-bit value.
pub open spec fn high_word(v: u128) -> u64 {
    (v as int / word_modulus()) as u64
}

/// The low 64 bits of a 128-bit value.
pub open spec fn low_word(v: u128) -> u64 {
    (v as int % word_modulus()) as u64
}

/// Splits a 128-bit value into its high and low 64-bit halves, in that order.
pub fn split_u128(value: u128) -> (r: (u64, u64))
    ensures
        r.0 == high_word(value),
        r.1 == low_word(value),
{
    proof {
        assert(value >> 64u128 <= 0xFFFF_FFFF_FFFF_FFFFu128) by (bit_vector);
        assert(value & 0xFFFF_FFFF_FFFF_FFFFu128 <= 0xFFFF_FFFF_FFFF_FFFFu128) by (bit_vector);
        assert(value >> 64u128 == value / 0x1_0000_0000_0000_0000u128) by (bit_vector);
        assert(value & 0xFFFF_FFFF_FFFF_FFFFu128 == value % 0x1_0000_0000_0000_0000u128)
            by (bit_vector);
    }
    let high = (value >> 64u128) as u64;
    let low = (value & 0xFFFF_FFFF_FFFF_FFFFu128) as u64;
    (high, low)
}

/// The 128-bit MurmurHash3 digest (x64 variant, seed 0) of a byte string.
pub uninterp spec fn murmur3_x64_128(data: Seq<u8>) -> u128;

/// Relies on fasthash's `Hash128_x64::hash`: the 128-bit MurmurHash3 digest
/// (x64 variant, seed 0) of the bytes, which depends on the bytes alone. The
/// length reaches the C implementation as an `i32`, hence the bound.
#[verifier::external_body]
fn murmur3_128(data: &[u8]) -> (r: u128)
    requires
        data@.len() <= i32::MAX,
    ensures
        r == murmur3_x64_128(data@),
{
    fasthash::murmur3::Hash128_x64::hash(data)
}

/// The largest input length that the hash deriver accepts: one byte is
/// appended before the second digest, and the digest takes an `i32` length.
pub open spec fn max_data_len() -> int {
    i32::MAX - 1
}

/// The four words derived from `data`: the low and high halves of its digest,
/// then the low and high halves of the digest of `data` followed by `0x01`.
pub open spec fn hash_words(data: Seq<u8>) -> Seq<u64> {
    let h1 = murmur3_x64_128(data);
    let h2 = murmur3_x64_128(data.push(1u8));
    seq![low_word(h1), high_word(h1), low_word(h2), high_word(h2)]
}

/// Derives the four hash words of `data`.
pub fn compute_hash(data: &[u8]) -> (r: [u64; 4])
    requires
        data@.len() <= max_data_len(),
    ensures
        r@ == hash_words(data@),
{
    let hash_1 = murmur3_128(data);
    let mut salted: Vec<u8> = Vec::with_capacity(data.len() + 1);
    let mut i: usize = 0;
    while i < data.len()
        invariant
            i <= data@.len(),
            salted@ == data@.subrange(0, i as int),
        decreases data@.len() - i,
    {
        salted.push(data[i]);
        i += 1;
        proof {
            assert(salted@ =~= data@.subrange(0, i as int));
        }
    }
    salted.push(1u8);
    proof {
        assert(salted@ =~= data@.push(1u8));
    }
    let hash_2 = murmur3_128(salted.as_slice());
    let (hash_1_high, hash_1_low) = split_u128(hash_1);
    let (hash_2_high, hash_2_low) = split_u128(hash_2);
    let r = [hash_1_low, hash_1_high, hash_2_low, hash_2_high];
    proof {
        assert(r@ =~= hash_words(data@));
    }
    r
}

} // verus!
