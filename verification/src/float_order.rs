//! A total order for 64-bit float payloads, encoded on bit patterns.
//!
//! The value model must support structural equality and hashing, which the
//! native float semantics (not-a-number values never being equal to anything)
//! would break.  Instead of a native float, the model carries the bit pattern
//! of the float in canonical form: every not-a-number pattern collapses to one
//! canonical pattern, and negative zero collapses to positive zero.  Bit
//! equality of canonical patterns then agrees with the usual total-order
//! equality on floats, under which all not-a-number values are equal to each
//! other, unequal to everything else, and the two zeros are equal.

use vstd::prelude::*;

verus! {

/// Bit mask of the exponent field of a 64-bit float.
pub const F64_EXP_MASK: u64 = 0x7ff0_0000_0000_0000;

/// Bit mask of the mantissa field of a 64-bit float.
pub const F64_MAN_MASK: u64 = 0x000f_ffff_ffff_ffff;

/// Bit pattern of negative zero.
pub const F64_NEG_ZERO: u64 = 0x8000_0000_0000_0000;

/// The canonical not-a-number bit pattern (the quiet one with empty payload).
pub const F64_CANON_NAN: u64 = 0x7ff8_0000_0000_0000;

/// A 64-bit float bit pattern encodes a not-a-number value exactly when its
/// exponent field is all ones and its mantissa field is not zero.
pub open spec fn is_nan_bits(bits: u64) -> bool {
    bits & F64_EXP_MASK == F64_EXP_MASK && bits & F64_MAN_MASK != 0
}

/// The canonical form of a float bit pattern: one pattern per equivalence
/// class of the total order's equality.
pub open spec fn canon_bits(bits: u64) -> u64 {
    if is_nan_bits(bits) {
        F64_CANON_NAN
    } else if bits == F64_NEG_ZERO {
        0u64
    } else {
        bits
    }
}

/// Computes the canonical form of a float bit pattern.
pub fn canonical_float_bits(bits: u64) -> (r: u64)
    ensures
        r == canon_bits(bits),
{
    if bits & F64_EXP_MASK == F64_EXP_MASK && bits & F64_MAN_MASK != 0 {
        F64_CANON_NAN
    } else if bits == F64_NEG_ZERO {
        0u64
    } else {
        bits
    }
}

/// The canonical not-a-number pattern is itself a not-a-number pattern.
pub proof fn lemma_canon_nan_is_nan()
    ensures
        is_nan_bits(F64_CANON_NAN),
{
    assert(0x7ff8_0000_0000_0000u64 & 0x7ff0_0000_0000_0000u64 == 0x7ff0_0000_0000_0000u64)
        by (bit_vector);
    assert(0x7ff8_0000_0000_0000u64 & 0x000f_ffff_ffff_ffffu64 != 0u64) by (bit_vector);
}

/// Positive zero is not a not-a-number pattern.
pub proof fn lemma_zero_not_nan()
    ensures
        !is_nan_bits(0u64),
{
    assert(0u64 & 0x7ff0_0000_0000_0000u64 != 0x7ff0_0000_0000_0000u64) by (bit_vector);
}

/// Taking the canonical form keeps the not-a-number class: a pattern and its
/// canonical form encode a not-a-number value together.
pub proof fn lemma_canon_keeps_nan(bits: u64)
    ensures
        is_nan_bits(canon_bits(bits)) == is_nan_bits(bits),
{
    if is_nan_bits(bits) {
        lemma_canon_nan_is_nan();
    } else if bits == F64_NEG_ZERO {
        lemma_zero_not_nan();
    }
}

/// Canonicalisation is idempotent: a canonical pattern is its own canonical
/// form.
pub proof fn lemma_canon_idempotent(bits: u64)
    ensures
        canon_bits(canon_bits(bits)) == canon_bits(bits),
{
    if is_nan_bits(bits) {
        lemma_canon_nan_is_nan();
    } else if bits == F64_NEG_ZERO {
        lemma_zero_not_nan();
        assert(0u64 != F64_NEG_ZERO);
    }
}

} // verus!
