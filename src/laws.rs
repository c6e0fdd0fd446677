//! Properties of the filter's operations, stated over the bit sequences that
//! their contracts speak of.
use vstd::arithmetic::div_mod::lemma_mod_bound;
use vstd::prelude::*;

use crate::bits::{or_bits, zero_bits};
use crate::filter::{inserted, is_location, location, member, mixer_index};
use crate::hash::{hash_words, word_modulus};

verus! {

/// Every probe location falls inside an array of `m >= 1` bits.
pub proof fn lemma_location_in_range(h: Seq<u64>, i: int, m: int)
    requires
        m >= 1,
    ensures
        0 <= location(h, i, m) < m,
{
    lemma_mod_bound((h[i % 2] as int + i * h[mixer_index(i)] as int) % word_modulus(), m);
}

/// No false negatives: once `x` has been inserted, the filter contains it.
pub proof fn lemma_inserted_is_contained(bits: Seq<bool>, x: Seq<u8>, k: int)
    requires
        bits.len() >= 1,
    ensures
        member(inserted(bits, x, k), x, k),
{
    let m = bits.len() as int;
    assert forall|i: int| 0 <= i < k implies inserted(bits, x, k)[#[trigger] location(hash_words(x), i, m)] by {
        lemma_location_in_range(hash_words(x), i, m);
        assert(is_location(hash_words(x), k, m, location(hash_words(x), i, m)));
    }
}

/// Inserting anything keeps every element that the filter contained.
pub proof fn lemma_insert_keeps_members(bits: Seq<bool>, x: Seq<u8>, y: Seq<u8>, k: int)
    requires
        bits.len() >= 1,
        member(bits, x, k),
    ensures
        member(inserted(bits, y, k), x, k),
{
    let m = bits.len() as int;
    assert forall|i: int| 0 <= i < k implies inserted(bits, y, k)[#[trigger] location(hash_words(x), i, m)] by {
        lemma_location_in_range(hash_words(x), i, m);
    }
}

/// Determinism: whether `x` is contained depends on the bits at its `k`
/// probe locations alone, and inserting `x` changes no bit outside them;
/// those locations are a function of `x`, `m` and `k`.
pub proof fn lemma_probes_determine_membership(a: Seq<bool>, b: Seq<bool>, x: Seq<u8>, k: int)
    requires
        a.len() == b.len(),
        a.len() >= 1,
        forall|i: int|
            0 <= i < k ==> a[#[trigger] location(hash_words(x), i, a.len() as int)] == b[location(
                hash_words(x),
                i,
                a.len() as int,
            )],
    ensures
        member(a, x, k) == member(b, x, k),
        forall|j: int|
            0 <= j < a.len() && !is_location(hash_words(x), k, a.len() as int, j)
                ==> #[trigger] inserted(a, x, k)[j] == a[j],
{
}

/// Inserting the same element twice leaves the bits as inserting it once.
pub proof fn lemma_insert_idempotent(bits: Seq<bool>, x: Seq<u8>, k: int)
    ensures
        inserted(inserted(bits, x, k), x, k) == inserted(bits, x, k),
{
    assert(inserted(inserted(bits, x, k), x, k) =~= inserted(bits, x, k));
}

/// After clearing, nothing is contained, for `m >= 1` bits and `k >= 1`.
pub proof fn lemma_cleared_contains_nothing(m: nat, x: Seq<u8>, k: int)
    requires
        m >= 1,
        k >= 1,
    ensures
        !member(zero_bits(m), x, k),
{
    let z = zero_bits(m);
    assert(z.len() == m);
    lemma_location_in_range(hash_words(x), 0, m as int);
    assert(!z[location(hash_words(x), 0, z.len() as int)]);
}

/// Union introduces no false negatives: what either filter contained, their
/// union contains.
pub proof fn lemma_union_keeps_members(a: Seq<bool>, b: Seq<bool>, x: Seq<u8>, k: int)
    requires
        a.len() == b.len(),
        a.len() >= 1,
        member(a, x, k) || member(b, x, k),
    ensures
        member(or_bits(a, b), x, k),
{
    let m = a.len() as int;
    assert forall|i: int| 0 <= i < k implies or_bits(a, b)[#[trigger] location(hash_words(x), i, m)] by {
        lemma_location_in_range(hash_words(x), i, m);
    }
}

/// Union is commutative.
pub proof fn lemma_union_commutative(a: Seq<bool>, b: Seq<bool>)
    requires
        a.len() == b.len(),
    ensures
        or_bits(a, b) == or_bits(b, a),
{
    assert(or_bits(a, b) =~= or_bits(b, a));
}

/// Union is associative.
pub proof fn lemma_union_associative(a: Seq<bool>, b: Seq<bool>, c: Seq<bool>)
    requires
        a.len() == b.len(),
        b.len() == c.len(),
    ensures
        or_bits(or_bits(a, b), c) == or_bits(a, or_bits(b, c)),
{
    assert(or_bits(or_bits(a, b), c) =~= or_bits(a, or_bits(b, c)));
}

} // verus!
