//! Classification and clamping of IEEE-754 single-precision values,
//! performed on their raw bit patterns.
//!
//! The library never computes with floating-point numbers; a test result
//! or limit crosses the boundary as the `u32` bit pattern of the host's
//! `f32` value.  Everything the ingestion logic must decide about such a
//! value — is it missing, is it infinite, must it be clamped before
//! storage — is a function of the bits alone and is verified here.

use vstd::prelude::*;

verus! {

/// Mask of the exponent bits of an `f32` pattern.
pub const F32_EXP_MASK: u32 = 0x7F80_0000;

/// Mask of the fraction bits of an `f32` pattern.
pub const F32_FRAC_MASK: u32 = 0x007F_FFFF;

/// Mask of the sign bit of an `f32` pattern.
pub const F32_SIGN_MASK: u32 = 0x8000_0000;

/// Bit pattern of the canonical quiet NaN (what `f32::NAN` holds).
pub const F32_NAN_BITS: u32 = 0x7FC0_0000;

/// Bit pattern of the largest finite `f32` (`f32::MAX`).
pub const F32_MAX_BITS: u32 = 0x7F7F_FFFF;

/// Bit pattern of the smallest finite `f32` (`f32::MIN`).
pub const F32_MIN_BITS: u32 = 0xFF7F_FFFF;

/// Bit pattern of positive infinity.
pub const F32_POS_INF_BITS: u32 = 0x7F80_0000;

/// Bit pattern of negative infinity.
pub const F32_NEG_INF_BITS: u32 = 0xFF80_0000;

/// Whether the pattern encodes a NaN: exponent all ones, fraction
/// non-zero.
pub open spec fn is_nan_bits(bits: u32) -> bool {
    bits & F32_EXP_MASK == F32_EXP_MASK && bits & F32_FRAC_MASK != 0
}

/// Whether the pattern encodes an infinity: exponent all ones, fraction
/// zero.
pub open spec fn is_inf_bits(bits: u32) -> bool {
    bits & F32_EXP_MASK == F32_EXP_MASK && bits & F32_FRAC_MASK == 0
}

/// Whether the pattern encodes a finite number.
pub open spec fn is_finite_bits(bits: u32) -> bool {
    bits & F32_EXP_MASK != F32_EXP_MASK
}

/// Whether the sign bit is set.
pub open spec fn is_negative_bits(bits: u32) -> bool {
    bits & F32_SIGN_MASK != 0
}

/// Tests whether the pattern encodes a NaN.
pub fn bits_is_nan(bits: u32) -> (r: bool)
    ensures
        r == is_nan_bits(bits),
{
    bits & F32_EXP_MASK == F32_EXP_MASK && bits & F32_FRAC_MASK != 0
}

/// Tests whether the pattern encodes a finite number.
pub fn bits_is_finite(bits: u32) -> (r: bool)
    ensures
        r == is_finite_bits(bits),
{
    bits & F32_EXP_MASK != F32_EXP_MASK
}

/// What a stored numeric result must be, given the bit pattern of the
/// scaled value: finite values pass through, infinities are clamped to
/// the extreme finite values so the stored column stays well-ordered,
/// and NaN (meaning "no valid result") stays NaN.
pub open spec fn replaced_inf(bits: u32) -> u32 {
    if is_finite_bits(bits) {
        bits
    } else if is_nan_bits(bits) {
        F32_NAN_BITS
    } else if is_negative_bits(bits) {
        F32_MIN_BITS
    } else {
        F32_MAX_BITS
    }
}

/// Clamps a non-finite scaled value to a storable one: negative infinity
/// becomes the smallest finite value, positive infinity the largest, NaN
/// is kept (canonicalized), and every finite pattern is returned
/// unchanged.
pub fn replace_inf(bits: u32) -> (r: u32)
    ensures
        r == replaced_inf(bits),
        is_finite_bits(bits) ==> r == bits,
        is_inf_bits(bits) && is_negative_bits(bits) ==> r == F32_MIN_BITS,
        is_inf_bits(bits) && !is_negative_bits(bits) ==> r == F32_MAX_BITS,
        is_nan_bits(bits) ==> r == F32_NAN_BITS,
        is_finite_bits(r) || is_nan_bits(r),
{
    proof {
        assert(0x7F7F_FFFFu32 & 0x7F80_0000u32 != 0x7F80_0000u32) by (bit_vector);
        assert(0xFF7F_FFFFu32 & 0x7F80_0000u32 != 0x7F80_0000u32) by (bit_vector);
        assert(0x7FC0_0000u32 & 0x7F80_0000u32 == 0x7F80_0000u32) by (bit_vector);
        assert(0x7FC0_0000u32 & 0x007F_FFFFu32 != 0u32) by (bit_vector);
    }
    if bits & F32_EXP_MASK != F32_EXP_MASK {
        bits
    } else if bits & F32_FRAC_MASK != 0 {
        F32_NAN_BITS
    } else if bits & F32_SIGN_MASK != 0 {
        F32_MIN_BITS
    } else {
        F32_MAX_BITS
    }
}

/// The storable image of a scaled result, as the round-trip guarantee
/// states it: NaN means "no valid result" and is stored as absent
/// (NULL); positive infinity becomes the largest finite value,
/// negative infinity the smallest, and a finite value passes through
/// unchanged — a stored result is never infinite.  The host calls this
/// on the bit pattern of every scaled value before rendering it.
pub fn storable_result(scaled_bits: u32) -> (r: Option<u32>)
    ensures
        r is None <==> is_nan_bits(scaled_bits),
        r matches Some(b) ==> b == replaced_inf(scaled_bits) && is_finite_bits(b),
        is_finite_bits(scaled_bits) ==> r == Some(scaled_bits),
        is_inf_bits(scaled_bits) && is_negative_bits(scaled_bits) ==> r == Some(F32_MIN_BITS),
        is_inf_bits(scaled_bits) && !is_negative_bits(scaled_bits) ==> r == Some(F32_MAX_BITS),
{
    proof {
        assert(0x7F7F_FFFFu32 & 0x7F80_0000u32 != 0x7F80_0000u32) by (bit_vector);
        assert(0xFF7F_FFFFu32 & 0x7F80_0000u32 != 0x7F80_0000u32) by (bit_vector);
        assert(0x7FC0_0000u32 & 0x7F80_0000u32 == 0x7F80_0000u32) by (bit_vector);
        assert(0x7FC0_0000u32 & 0x007F_FFFFu32 != 0u32) by (bit_vector);
    }
    let clamped = replace_inf(scaled_bits);
    if bits_is_nan(clamped) {
        None
    } else {
        Some(clamped)
    }
}

/// What an optional numeric field resolves to before scaling: the raw
/// value when it is present and its "invalid" bit is clear, and NaN
/// (meaning "no valid value") otherwise.
pub open spec fn resolved_option_value(value: Option<u32>, flag: Option<u8>, mask: u8) -> u32 {
    match (value, flag) {
        (Some(v), Some(f)) => if f & mask == 0 {
            v
        } else {
            F32_NAN_BITS
        },
        _ => F32_NAN_BITS,
    }
}

/// Resolves an optional numeric field against its option-flag byte: the
/// field is valid only when it is present and none of the bits selected
/// by `mask` is set; an invalid field becomes NaN.
pub fn option_value(value: &Option<u32>, flag: &Option<u8>, mask: u8) -> (r: u32)
    ensures
        r == resolved_option_value(*value, *flag, mask),
{
    match (value, flag) {
        (Some(v), Some(f)) => {
            if *f & mask == 0 {
                *v
            } else {
                F32_NAN_BITS
            }
        },
        _ => F32_NAN_BITS,
    }
}

} // verus!
