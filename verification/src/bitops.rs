//! Shared lemmas about bitwise operations on the 64-bit GPIO masks.

use vstd::prelude::*;

verus! {

/// 0 is the neutral element of bitwise OR.
pub proof fn lemma_or_zero(a: u64)
    by (bit_vector)
    ensures
        a | 0u64 == a,
        0u64 | a == a,
{
}

/// Bitwise OR is idempotent.
pub proof fn lemma_or_idem(a: u64)
    by (bit_vector)
    ensures
        a | a == a,
{
}

/// Two interleaved OR accumulations can be regrouped pairwise.
pub proof fn lemma_or_rearrange(a: u64, b: u64, x: u64, y: u64)
    by (bit_vector)
    ensures
        (a | b) | (x | y) == (a | x) | (b | y),
{
}

/// A value masked to its low 16 bits fits a 16-bit register field.
pub proof fn lemma_mask16(x: u64)
    by (bit_vector)
    ensures
        x & 0xffff < 0x10000,
{
}

/// A value masked to its low 6 bits indexes a 64-entry column table.
pub proof fn lemma_mask6(x: u64)
    by (bit_vector)
    ensures
        x & 0x3f < 64,
{
}

/// Bitwise OR associates.
pub proof fn lemma_or_assoc(a: u64, b: u64, c: u64)
    by (bit_vector)
    ensures
        (a | b) | c == a | (b | c),
{
}

/// A union of two display patterns is again a display pattern: bits
/// stay below the 48-bit window of the six byte lanes.
pub proof fn lemma_or_bound48(a: u64, b: u64)
    by (bit_vector)
    requires
        a < 0x1_0000_0000_0000,
        b < 0x1_0000_0000_0000,
    ensures
        (a | b) < 0x1_0000_0000_0000,
{
}

/// A single cell bit of a display pattern lies below the 48-bit window.
pub proof fn lemma_shift_bound48(k: u64)
    by (bit_vector)
    requires
        k <= 45,
    ensures
        (1u64 << k) < 0x1_0000_0000_0000,
{
}

/// Two single-bit masks overlap exactly when they sit at the same
/// position.
pub proof fn lemma_bit_eq(p: u64, q: u64)
    by (bit_vector)
    requires
        p < 64,
        q < 64,
    ensures
        ((1u64 << p) & (1u64 << q) != 0) <==> p == q,
{
}

/// Zero masks everything out.
pub proof fn lemma_zero_and(x: u64)
    by (bit_vector)
    ensures
        0u64 & x == 0,
{
}

/// Testing row `r` of a column's 6-bit lane is testing the display bit
/// at `c * 8 + r`.
pub proof fn lemma_lane_bit(d: u64, c: u64, r: u64)
    by (bit_vector)
    requires
        c < 6,
        r < 6,
    ensures
        (((d >> (c * 8)) & 0x3f) & (1u64 << r) != 0) <==> ((d >> (c * 8 + r)) & 1 == 1),
{
}

/// A single-bit mask is set at its own position.
pub proof fn lemma_bit_self(p: u64)
    by (bit_vector)
    requires
        p < 64,
    ensures
        (1u64 << p) & (1u64 << p) != 0,
{
}

/// A bit is set in a union exactly when it is set in either operand.
pub proof fn lemma_or_bit_split(i: u64, j: u64, r: u64)
    by (bit_vector)
    requires
        r < 64,
    ensures
        (i | j) & (1u64 << r) != 0 <==> (i & (1u64 << r) != 0 || j & (1u64 << r) != 0),
{
}

} // verus!
