//! The fixed-length bit array that backs a filter: fixedbitset's
//! `FixedBitSet`, seen through the sequence of its bits.
use fixedbitset::FixedBitSet;
use vstd::prelude::*;

verus! {

#[verifier::external_type_specification]
#[verifier::external_body]
pub struct ExFixedBitSet(FixedBitSet);

/// The bits of a set, bit `j` at position `j`; its length is the set's
/// length in bits.
pub uninterp spec fn bits_of(b: FixedBitSet) -> Seq<bool>;

/// A sequence of `n` cleared bits.
pub open spec fn zero_bits(n: nat) -> Seq<bool> {
    Seq::new(n, |j: int| false)
}

/// The bitwise OR of two bit sequences of equal length, index for index.
pub open spec fn or_bits(a: Seq<bool>, b: Seq<bool>) -> Seq<bool> {
    Seq::new(a.len(), |j: int| a[j] || b[j])
}

/// Relies on `FixedBitSet::with_capacity`: `n` bits, all clear.
#[verifier::external_body]
pub(crate) fn bits_with_capacity(n: usize) -> (r: FixedBitSet)
    ensures
        bits_of(r) == zero_bits(n as nat),
{
    FixedBitSet::with_capacity(n)
}

/// Relies on `FixedBitSet::contains`: whether bit `j` is set.
#[verifier::external_body]
pub(crate) fn bits_contains(b: &FixedBitSet, j: usize) -> (r: bool)
    requires
        j < bits_of(*b).len(),
    ensures
        r == bits_of(*b)[j as int],
{
    b.contains(j)
}

/// Relies on `FixedBitSet::insert`: sets bit `j`, leaving the others; it
/// panics when `j` is not below the length.
#[verifier::external_body]
pub(crate) fn bits_insert(b: &mut FixedBitSet, j: usize)
    requires
        j < bits_of(*old(b)).len(),
    ensures
        bits_of(*final(b)) == bits_of(*old(b)).update(j as int, true),
{
    b.insert(j)
}

/// Relies on `FixedBitSet::clear`: clears every bit, keeping the length.
#[verifier::external_body]
pub(crate) fn bits_clear(b: &mut FixedBitSet)
    ensures
        bits_of(*final(b)) == zero_bits(bits_of(*old(b)).len()),
{
    b.clear()
}

/// Relies on `FixedBitSet::union_with`: ORs `other` into `b`. With equal
/// lengths the length stays as it was.
#[verifier::external_body]
pub(crate) fn bits_union_with(b: &mut FixedBitSet, other: &FixedBitSet)
    requires
        bits_of(*old(b)).len() == bits_of(*other).len(),
    ensures
        bits_of(*final(b)) == or_bits(bits_of(*old(b)), bits_of(*other)),
{
    b.union_with(other)
}

/// Relies on `FixedBitSet::clone`: a separate set with the same bits.
#[verifier::external_body]
pub(crate) fn bits_clone(b: &FixedBitSet) -> (r: FixedBitSet)
    ensures
        bits_of(r) == bits_of(*b),
{
    b.clone()
}

} // verus!
