//! A totally ordered sort key over view-space distances.
//!
//! A phase item's distance from the camera is carried as the bit pattern of a
//! 32-bit IEEE-754 value. `SortKey` wraps that pattern and orders it by a
//! monotone mapping to `u32`: patterns with the sign bit clear (non-negative
//! distances) keep their magnitude order above all patterns with the sign bit
//! set (negative distances), whose order is reversed. This is the IEEE-754
//! total order: every pattern, finite or not, has one deterministic position,
//! with negative NaN patterns smallest and positive NaN patterns largest.

use vstd::prelude::*;

verus! {

/// The comparison key of a phase item: the bit pattern of its view-space
/// distance, ordered by `rank_of`.
#[derive(Clone, Copy, PartialEq, Eq, Structural, Debug)]
pub struct SortKey {
    /// Bit pattern of the distance (a 32-bit IEEE-754 value).
    pub bits: u32,
}

/// Monotone mapping from a distance bit pattern to its position in the total
/// order: sign-set patterns are complemented, sign-clear patterns have the
/// sign bit set, so every sign-set pattern ranks below every sign-clear one.
pub open spec fn rank_of(bits: u32) -> u32 {
    if bits >= 0x8000_0000 {
        !bits
    } else {
        bits ^ 0x8000_0000
    }
}

/// `a` comes no later than `b` in the total order over distance patterns.
pub open spec fn spec_key_le(a: SortKey, b: SortKey) -> bool {
    rank_of(a.bits) <= rank_of(b.bits)
}

impl SortKey {
    /// The key for a distance with the given bit pattern.
    pub fn new(bits: u32) -> (k: SortKey)
        ensures
            k.bits == bits,
    {
        SortKey { bits }
    }

    /// Position of this key in the total order; smaller rank sorts first.
    pub fn rank(&self) -> (r: u32)
        ensures
            r == rank_of(self.bits),
    {
        if self.bits >= 0x8000_0000 {
            !self.bits
        } else {
            self.bits ^ 0x8000_0000
        }
    }

    /// Whether `self` sorts no later than `other`.
    pub fn le(&self, other: &SortKey) -> (r: bool)
        ensures
            r == spec_key_le(*self, *other),
    {
        self.rank() <= other.rank()
    }
}

/// The order on keys is total: reflexive, transitive, antisymmetric — two
/// keys compare equal exactly when their bit patterns are equal — and any
/// two keys are comparable.
pub proof fn lemma_key_order_total(a: SortKey, b: SortKey, c: SortKey)
    ensures
        spec_key_le(a, a),
        spec_key_le(a, b) && spec_key_le(b, c) ==> spec_key_le(a, c),
        spec_key_le(a, b) && spec_key_le(b, a) ==> a == b,
        spec_key_le(a, b) || spec_key_le(b, a),
{
    let x = a.bits;
    let y = b.bits;
    assert((if x >= 0x8000_0000u32 {
        !x
    } else {
        x ^ 0x8000_0000u32
    }) == (if y >= 0x8000_0000u32 {
        !y
    } else {
        y ^ 0x8000_0000u32
    }) ==> x == y) by (bit_vector);
}

} // verus!
