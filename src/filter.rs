//! The Bloom filter itself: probe indices, insertion, membership, clearing
//! and merging.
use fixedbitset::FixedBitSet;
use vstd::arithmetic::div_mod::{lemma_add_mod_noop, lemma_mod_bound, lemma_mod_twice};
use vstd::prelude::*;

use crate::bits::{
    bits_clear, bits_clone, bits_contains, bits_insert, bits_of, bits_union_with,
    bits_with_capacity, or_bits, zero_bits,
};
use crate::hash::{compute_hash, hash_words, max_data_len, word_modulus};

verus! {

/// Which of the two hash-2 words mixes into probe `i`: index 2 or 3 of the
/// hash words, cycling with period four over `i`.
pub open spec fn mixer_index(i: int) -> int {
    2 + ((i + i % 2) % 4) / 2
}

/// The bit index of probe `i` into `m` bits, given the four hash words `h`:
/// `h[i % 2] + i * h[mixer_index(i)]` with 64-bit wraparound, modulo `m`.
pub open spec fn location(h: Seq<u64>, i: int, m: int) -> int {
    ((h[i % 2] as int + i * h[mixer_index(i)] as int) % word_modulus()) % m
}

/// Whether bit `j` is the location of one of the first `n` probes for the
/// hash words `h` into `m` bits.
pub open spec fn is_location(h: Seq<u64>, n: int, m: int, j: int) -> bool {
    exists|i: int| 0 <= i < n && #[trigger] location(h, i, m) == j
}

/// Whether the locations of all `k` probes for the hash words `h` are set.
pub open spec fn all_set(bits: Seq<bool>, h: Seq<u64>, k: int) -> bool {
    forall|i: int| 0 <= i < k ==> bits[#[trigger] location(h, i, bits.len() as int)]
}

/// The bits after the locations of the first `k` probes for the hash words
/// `h` have been set.
pub open spec fn set_locations(bits: Seq<bool>, h: Seq<u64>, k: int) -> Seq<bool> {
    Seq::new(bits.len(), |j: int| bits[j] || is_location(h, k, bits.len() as int, j))
}

/// Whether all `k` probes of `data` land on set bits.
pub open spec fn member(bits: Seq<bool>, data: Seq<u8>, k: int) -> bool {
    all_set(bits, hash_words(data), k)
}

/// The bits after the `k` probes of `data` have been set.
pub open spec fn inserted(bits: Seq<bool>, data: Seq<u8>, k: int) -> Seq<bool> {
    set_locations(bits, hash_words(data), k)
}

/// Why two filters cannot be merged: the first dimension in which they
/// differ, with this filter's value and the other's.
#[derive(Debug, Clone, Copy, PartialEq, Eq, Structural)]
pub enum DimensionMismatch {
    /// The capacities `m` differ.
    Capacity { ours: usize, theirs: usize },
    /// The probe counts `k` differ.
    Probes { ours: usize, theirs: usize },
}

/// A Bloom filter of `m` bits probed `k` times per element.
pub struct BloomFilter {
    m: usize,
    k: usize,
    bitset: FixedBitSet,
}

impl BloomFilter {
    /// The capacity `m`.
    pub closed spec fn spec_capacity(&self) -> nat {
        self.m as nat
    }

    /// The number of probes `k`.
    pub closed spec fn spec_k(&self) -> nat {
        self.k as nat
    }

    /// The bit array, bit `j` at position `j`.
    pub closed spec fn bits(&self) -> Seq<bool> {
        bits_of(self.bitset)
    }

    /// Both dimensions are at least one and the bit array has `m` bits.
    pub open spec fn wf(&self) -> bool {
        &&& self.spec_capacity() >= 1
        &&& self.spec_k() >= 1
        &&& self.bits().len() == self.spec_capacity()
    }

    /// Whether this filter reports `data` as possibly inserted.
    pub open spec fn spec_contains(&self, data: Seq<u8>) -> bool {
        member(self.bits(), data, self.spec_k() as int)
    }

    /// A filter of `max(m, 1)` clear bits probed `max(k, 1)` times.
    pub fn new(m: usize, k: usize) -> (r: Self)
        ensures
            r.wf(),
            r.spec_capacity() == if m >= 1 { m as nat } else { 1 },
            r.spec_k() == if k >= 1 { k as nat } else { 1 },
            r.bits() == zero_bits(r.spec_capacity()),
    {
        let m = if m >= 1 { m } else { 1 };
        let k = if k >= 1 { k } else { 1 };
        BloomFilter { m, k, bitset: bits_with_capacity(m) }
    }

    /// The bit index of probe `i` for the hash words `h`.
    fn get_location(&self, h: [u64; 4], i: usize) -> (r: usize)
        requires
            self.wf(),
            i < usize::MAX,
        ensures
            r == location(h@, i as int, self.spec_capacity() as int),
            r < self.spec_capacity(),
    {
        let ii = i as u64;
        let index = 2 + (((i + (i % 2)) % 4) / 2);
        let mixed = ii.wrapping_mul(h[index]);
        let result = h[i % 2].wrapping_add(mixed);
        proof {
            let a = h@[(i % 2) as int] as int;
            let b = i as int * h@[index as int] as int;
            assert(mixed == b % word_modulus());
            assert(result == (a + b % word_modulus()) % word_modulus());
            lemma_add_mod_noop(a, b, word_modulus());
            lemma_mod_twice(b, word_modulus());
            lemma_mod_bound(a, word_modulus());
            assert(result == (a + b) % word_modulus()) by {
                lemma_add_mod_noop(a, b % word_modulus(), word_modulus());
            }
        }
        (result % (self.m as u64)) as usize
    }

    /// Sets the bit at the location of each of the `k` probes for the
    /// hash words `h`.
    pub fn insert_hashed(&mut self, h: [u64; 4])
        requires
            old(self).wf(),
        ensures
            final(self).wf(),
            final(self).spec_capacity() == old(self).spec_capacity(),
            final(self).spec_k() == old(self).spec_k(),
            final(self).bits() == set_locations(old(self).bits(), h@, old(self).spec_k() as int),
    {
        let ghost before = self.bits();
        let ghost m = self.m as int;
        let mut i: usize = 0;
        while i < self.k
            invariant
                self.wf(),
                self.m == old(self).m,
                self.k == old(self).k,
                m == self.m,
                before.len() == m,
                i <= self.k,
                self.bits() == set_locations(before, h@, i as int),
            decreases self.k - i,
        {
            let loc = self.get_location(h, i);
            bits_insert(&mut self.bitset, loc);
            proof {
                assert forall|j: int| 0 <= j < m implies is_location(h@, i + 1, m, j) == (
                is_location(h@, i as int, m, j) || j == loc) by {
                    if is_location(h@, i + 1, m, j) && j != loc {
                        let w = choose|w: int| 0 <= w < i + 1 && #[trigger] location(h@, w, m) == j;
                        assert(w != i);
                    }
                    if j == loc {
                        assert(location(h@, i as int, m) == j);
                    }
                }
                assert(self.bits() =~= set_locations(before, h@, i + 1));
            }
            i += 1;
        }
    }

    /// Whether the location of every one of the `k` probes for the hash
    /// words `h` is set.
    pub fn contains_hashed(&self, h: [u64; 4]) -> (r: bool)
        requires
            self.wf(),
        ensures
            r == all_set(self.bits(), h@, self.spec_k() as int),
    {
        let mut i: usize = 0;
        while i < self.k
            invariant
                self.wf(),
                i <= self.k,
                forall|p: int|
                    0 <= p < i ==> self.bits()[#[trigger] location(
                        h@,
                        p,
                        self.spec_capacity() as int,
                    )],
            decreases self.k - i,
        {
            let loc = self.get_location(h, i);
            if !bits_contains(&self.bitset, loc) {
                return false;
            }
            i += 1;
        }
        true
    }

    /// Adds `data`: sets the bit of each of its `k` probes.
    pub fn insert(&mut self, data: &[u8]) -> (r: &mut Self)
        requires
            old(self).wf(),
            data@.len() <= max_data_len(),
        ensures
            r.wf(),
            r.spec_capacity() == old(self).spec_capacity(),
            r.spec_k() == old(self).spec_k(),
            r.bits() == inserted(old(self).bits(), data@, old(self).spec_k() as int),
            *final(self) == *final(r),
    {
        let h = compute_hash(data);
        self.insert_hashed(h);
        self
    }

    /// Whether every one of the `k` probes of `data` lands on a set bit.
    pub fn contains(&self, data: &[u8]) -> (r: bool)
        requires
            self.wf(),
            data@.len() <= max_data_len(),
        ensures
            r == self.spec_contains(data@),
    {
        let h = compute_hash(data);
        self.contains_hashed(h)
    }

    /// The capacity `m`.
    pub fn capacity(&self) -> (r: usize)
        ensures
            r == self.spec_capacity(),
    {
        self.m
    }

    /// The number of probes `k`.
    pub fn k(&self) -> (r: usize)
        ensures
            r == self.spec_k(),
    {
        self.k
    }

    /// The bit array.
    pub fn bitset(&self) -> (r: &FixedBitSet)
        ensures
            bits_of(*r) == self.bits(),
    {
        &self.bitset
    }

    /// Clears every bit, keeping `m` and `k`.
    pub fn clear(&mut self) -> (r: &mut Self)
        requires
            old(self).wf(),
        ensures
            r.wf(),
            r.spec_capacity() == old(self).spec_capacity(),
            r.spec_k() == old(self).spec_k(),
            r.bits() == zero_bits(old(self).spec_capacity()),
            *final(self) == *final(r),
    {
        bits_clear(&mut self.bitset);
        self
    }

    /// Merges `other` into this filter by ORing its bits in, provided both
    /// have the same `m` and the same `k`; otherwise this filter is left as
    /// it was and the first differing dimension is reported.
    pub fn union(&mut self, other: &Self) -> (r: Result<(), DimensionMismatch>)
        requires
            old(self).wf(),
            other.wf(),
        ensures
            final(self).wf(),
            final(self).spec_capacity() == old(self).spec_capacity(),
            final(self).spec_k() == old(self).spec_k(),
            match r {
                Ok(()) => {
                    &&& old(self).spec_capacity() == other.spec_capacity()
                    &&& old(self).spec_k() == other.spec_k()
                    &&& final(self).bits() == or_bits(old(self).bits(), other.bits())
                },
                Err(e) => {
                    &&& *final(self) == *old(self)
                    &&& e == if old(self).spec_capacity() != other.spec_capacity() {
                        DimensionMismatch::Capacity {
                            ours: old(self).spec_capacity() as usize,
                            theirs: other.spec_capacity() as usize,
                        }
                    } else {
                        DimensionMismatch::Probes {
                            ours: old(self).spec_k() as usize,
                            theirs: other.spec_k() as usize,
                        }
                    }
                    &&& (old(self).spec_capacity() != other.spec_capacity() || old(self).spec_k()
                        != other.spec_k())
                },
            },
    {
        if self.m != other.m {
            return Err(DimensionMismatch::Capacity { ours: self.m, theirs: other.m });
        }
        if self.k != other.k {
            return Err(DimensionMismatch::Probes { ours: self.k, theirs: other.k });
        }
        bits_union_with(&mut self.bitset, &other.bitset);
        Ok(())
    }
}

impl Clone for BloomFilter {
    /// An independent copy with the same `m`, `k` and bits.
    fn clone(&self) -> (r: Self)
        ensures
            r.spec_capacity() == self.spec_capacity(),
            r.spec_k() == self.spec_k(),
            r.bits() == self.bits(),
    {
        BloomFilter { m: self.m, k: self.k, bitset: bits_clone(&self.bitset) }
    }
}

} // verus!
