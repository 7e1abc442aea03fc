//! Scalars as IEEE-754 single-precision bit patterns.
//!
//! A scalar is stored as the 32-bit pattern of an `f32`.  For comparisons the
//! library uses the standard order-preserving embedding of the bit patterns
//! into the unsigned integers: non-negative patterns are moved above the
//! (reversed) negative ones.  On patterns of finite numbers this order agrees
//! with the numeric order of the floats they denote, and negation is exactly
//! a flip of the sign bit.  Ordering, clamping and negation are verified
//! here; the arithmetic itself is delegated to the linear-algebra crate
//! behind trusted wrappers, which name their results where the operation is
//! deterministic.  One assumption stands behind those names: IEEE-754
//! arithmetic is deterministic except for the payload bits of the NaNs it
//! produces, which the platform may choose, so on NaN-producing operands a
//! named result is exact only up to that choice.  No contract in this
//! library distinguishes NaN payloads.

use vstd::prelude::*;

verus! {

/// Bit pattern of `0.0`.
pub const F32_ZERO: u32 = 0x0000_0000;

/// Bit pattern of `-0.0`: the sign bit alone.
pub const F32_NEG_ZERO: u32 = 0x8000_0000;

/// Bit pattern of `1.0`.
pub const F32_ONE: u32 = 0x3F80_0000;

/// Bit pattern of `-1.0`.
pub const F32_NEG_ONE: u32 = 0xBF80_0000;

/// Bit pattern of `0.5`.
pub const F32_HALF: u32 = 0x3F00_0000;

/// Bit pattern of `0.3`.
pub const F32_THREE_TENTHS: u32 = 0x3E99_999A;

/// Bit pattern of `1.5`.
pub const F32_ONE_AND_HALF: u32 = 0x3FC0_0000;

/// Bit pattern of `-1.5`.
pub const F32_NEG_ONE_AND_HALF: u32 = 0xBFC0_0000;

/// Bit pattern of `2.0`.
pub const F32_TWO: u32 = 0x4000_0000;

/// Bit pattern of `-2.0`.
pub const F32_NEG_TWO: u32 = 0xC000_0000;

/// Bit pattern of `180.0`.
pub const F32_ONE_EIGHTY: u32 = 0x4334_0000;

/// Bit pattern of `0.1`.
pub const F32_TENTH: u32 = 0x3DCC_CCCD;

/// Bit pattern of `0.01`.
pub const F32_HUNDREDTH: u32 = 0x3C23_D70A;

/// Bit pattern of `0.002`.
pub const F32_TWO_THOUSANDTHS: u32 = 0x3B03_126F;

/// Bit pattern of `1.1`.
pub const F32_ELEVEN_TENTHS: u32 = 0x3F8C_CCCD;

/// Bit pattern of `0.2`.
pub const F32_FIFTH: u32 = 0x3E4C_CCCD;

/// Bit pattern of `2.2`, the default gamma.
pub const F32_GAMMA: u32 = 0x400C_CCCD;

/// Bit pattern of `3.0`.
pub const F32_THREE: u32 = 0x4040_0000;

/// Bit pattern of `5.0`.
pub const F32_FIVE: u32 = 0x40A0_0000;

/// Bit pattern of `-5.0`.
pub const F32_NEG_FIVE: u32 = 0xC0A0_0000;

/// Bit pattern of `10.0`.
pub const F32_TEN: u32 = 0x4120_0000;

/// Bit pattern of `-10.0`.
pub const F32_NEG_TEN: u32 = 0xC120_0000;

/// Bit pattern of `8.0`.
pub const F32_EIGHT: u32 = 0x4100_0000;

/// Bit pattern of `16.0`.
pub const F32_SIXTEEN: u32 = 0x4180_0000;

/// Bit pattern of `32.0`.
pub const F32_THIRTY_TWO: u32 = 0x4200_0000;

/// Bit pattern of `-PI/2`.
pub const F32_NEG_HALF_PI: u32 = 0xBFC9_0FDB;

/// Bit pattern of `100.0`.
pub const F32_HUNDRED: u32 = 0x42C8_0000;

/// Bit pattern of `-100.0`.
pub const F32_NEG_HUNDRED: u32 = 0xC2C8_0000;

/// Bit pattern of `2^126`: a bound under which two floats always subtract
/// to a finite difference.
pub const F32_SPAN_LIMIT: u32 = 0x7E80_0000;

/// Bit pattern of `-2^126`.
pub const F32_NEG_SPAN_LIMIT: u32 = 0xFE80_0000;

/// Bit pattern of positive infinity.
pub const F32_POS_INF: u32 = 0x7F80_0000;

/// Bit pattern of negative infinity.
pub const F32_NEG_INF: u32 = 0xFF80_0000;

/// Bit pattern of `-PI/2 + 0.001`, the lower pitch bound.
pub const PITCH_MIN: u32 = 0xBFC8_EF16;

/// Bit pattern of `PI/2 - 0.001`, the upper pitch bound.
pub const PITCH_MAX: u32 = 0x3FC8_EF16;

/// Monotone key of a scalar bit pattern: comparing keys compares the
/// denoted floats (IEEE-754 total order).
pub open spec fn fkey(bits: u32) -> u32 {
    if bits >= 0x8000_0000 {
        !bits
    } else {
        (bits + 0x8000_0000) as u32
    }
}

/// `a` is at most `b` in the scalar total order.
pub open spec fn fle(a: u32, b: u32) -> bool {
    fkey(a) <= fkey(b)
}

/// The pattern denotes a finite number (not an infinity, not a NaN).
pub open spec fn is_finite(bits: u32) -> bool {
    fkey(F32_NEG_INF) < fkey(bits) && fkey(bits) < fkey(F32_POS_INF)
}

/// The pitch bounds are ordered: the lower bound is below the upper one.
pub proof fn lemma_pitch_bounds_ordered()
    ensures
        fle(PITCH_MIN, PITCH_MAX),
{
    assert((if 0xBFC8_EF16u32 >= 0x8000_0000 {
        !0xBFC8_EF16u32
    } else {
        (0xBFC8_EF16u32 + 0x8000_0000) as u32
    }) <= (if 0x3FC8_EF16u32 >= 0x8000_0000 {
        !0x3FC8_EF16u32
    } else {
        (0x3FC8_EF16u32 + 0x8000_0000) as u32
    })) by (bit_vector);
}

/// The scatter range `[-100, 100]` is ordered and sits inside the half
/// -range within which a width never overflows.
pub proof fn lemma_scatter_range_ok()
    ensures
        fle(F32_NEG_HUNDRED, F32_HUNDRED),
        fle(F32_NEG_SPAN_LIMIT, F32_NEG_HUNDRED),
        fle(F32_HUNDRED, F32_SPAN_LIMIT),
{
    assert((!0xC2C8_0000u32 <= (0x42C8_0000u32 + 0x8000_0000) as u32) && (!0xFE80_0000u32
        <= !0xC2C8_0000u32) && ((0x42C8_0000u32 + 0x8000_0000) as u32 <= (0x7E80_0000u32
        + 0x8000_0000) as u32)) by (bit_vector);
}

/// The gamma bounds are ordered: one is below three.
pub proof fn lemma_gamma_bounds_ordered()
    ensures
        fle(F32_ONE, F32_THREE),
{
    assert((if 0x3F80_0000u32 >= 0x8000_0000 {
        !0x3F80_0000u32
    } else {
        (0x3F80_0000u32 + 0x8000_0000) as u32
    }) <= (if 0x4040_0000u32 >= 0x8000_0000 {
        !0x4040_0000u32
    } else {
        (0x4040_0000u32 + 0x8000_0000) as u32
    })) by (bit_vector);
}

/// Distinct bit patterns have distinct keys.
pub proof fn lemma_fkey_injective(a: u32, b: u32)
    ensures
        fkey(a) == fkey(b) ==> a == b,
{
    assert((if a >= 0x8000_0000 {
        !a
    } else {
        (a + 0x8000_0000) as u32
    }) == (if b >= 0x8000_0000 {
        !b
    } else {
        (b + 0x8000_0000) as u32
    }) ==> a == b) by (bit_vector);
}

/// Exec comparison of two scalar bit patterns in the total order.
pub fn le_bits(a: u32, b: u32) -> (r: bool)
    ensures
        r == fle(a, b),
{
    let ka: u32 = if a >= 0x8000_0000 { !a } else { a + 0x8000_0000 };
    let kb: u32 = if b >= 0x8000_0000 { !b } else { b + 0x8000_0000 };
    ka <= kb
}

/// Exec strict comparison in the scalar total order.
pub fn lt_bits(a: u32, b: u32) -> (r: bool)
    ensures
        r == (fkey(a) < fkey(b)),
{
    let ka: u32 = if a >= 0x8000_0000 { !a } else { a + 0x8000_0000 };
    let kb: u32 = if b >= 0x8000_0000 { !b } else { b + 0x8000_0000 };
    ka < kb
}

/// Larger of two scalars in the total order.
pub fn max_bits(a: u32, b: u32) -> (r: u32)
    ensures
        r == if fle(a, b) {
            b
        } else {
            a
        },
        fle(a, r) && fle(b, r),
{
    if le_bits(a, b) {
        b
    } else {
        a
    }
}

/// Smaller of two scalars in the total order.
pub fn min_bits(a: u32, b: u32) -> (r: u32)
    ensures
        r == if fle(a, b) {
            a
        } else {
            b
        },
        fle(r, a) && fle(r, b),
{
    if le_bits(a, b) {
        a
    } else {
        b
    }
}

/// The clamp of `x` into `[lo, hi]` of the total order.
pub open spec fn fclamp(x: u32, lo: u32, hi: u32) -> u32 {
    if fkey(x) < fkey(lo) {
        lo
    } else if fkey(x) > fkey(hi) {
        hi
    } else {
        x
    }
}

/// Clamp a scalar into `[lo, hi]` of the total order.
pub fn clamp_bits(x: u32, lo: u32, hi: u32) -> (r: u32)
    requires
        fle(lo, hi),
    ensures
        r == fclamp(x, lo, hi),
        fle(lo, r) && fle(r, hi),
{
    proof {
        lemma_fkey_injective(x, lo);
        lemma_fkey_injective(x, hi);
    }
    min_bits(max_bits(x, lo), hi)
}

/// Negation of a float is exactly a flip of its sign bit; it reverses the
/// total order.
pub fn neg_bits(x: u32) -> (r: u32)
    ensures
        r == (x ^ 0x8000_0000u32),
        fkey(r) == !fkey(x),
{
    proof {
        assert(((x ^ 0x8000_0000u32) >= 0x8000_0000 ==> !(x ^ 0x8000_0000u32) == !(if x
            >= 0x8000_0000 {
            !x
        } else {
            (x + 0x8000_0000) as u32
        })) && ((x ^ 0x8000_0000u32) < 0x8000_0000 ==> ((x ^ 0x8000_0000u32) + 0x8000_0000) as u32
            == !(if x >= 0x8000_0000 {
            !x
        } else {
            (x + 0x8000_0000) as u32
        })) ) by (bit_vector);
    }
    x ^ 0x8000_0000u32
}

/// What the sum of two scalars denotes.  IEEE-754 addition is deterministic
/// (up to the platform's choice of NaN payload on NaN-producing operands,
/// see the module note), so the result pattern is a function of the operand
/// patterns alone.
pub uninterp spec fn add_bits(a: u32, b: u32) -> u32;

/// What the difference of two scalars denotes.
pub uninterp spec fn sub_bits(a: u32, b: u32) -> u32;

/// What the product of two scalars denotes.
pub uninterp spec fn mul_bits(a: u32, b: u32) -> u32;

/// What `to_radians` of a scalar denotes (a single multiplication by a
/// constant, deterministic).
pub uninterp spec fn rad_bits(deg: u32) -> u32;

/// What `to_degrees` of a scalar denotes (a single multiplication by a
/// constant, deterministic).
pub uninterp spec fn deg_bits(rad: u32) -> u32;

/// Relies on `nalgebra`'s componentwise vector addition (IEEE-754 addition).
#[verifier::external_body]
pub(crate) fn f32_add(a: u32, b: u32) -> (r: u32)
    ensures
        r == add_bits(a, b),
{
    let va: nalgebra_glm::Vec2 = nalgebra_glm::make_vec2(bytemuck::cast_slice(&[a, a]));
    let vb: nalgebra_glm::Vec2 = nalgebra_glm::make_vec2(bytemuck::cast_slice(&[b, b]));
    (va + vb).x.to_bits()
}

/// Relies on `nalgebra`'s componentwise vector subtraction (IEEE-754
/// subtraction).
#[verifier::external_body]
pub(crate) fn f32_sub(a: u32, b: u32) -> (r: u32)
    ensures
        r == sub_bits(a, b),
{
    let va: nalgebra_glm::Vec2 = nalgebra_glm::make_vec2(bytemuck::cast_slice(&[a, a]));
    let vb: nalgebra_glm::Vec2 = nalgebra_glm::make_vec2(bytemuck::cast_slice(&[b, b]));
    (va - vb).x.to_bits()
}

/// Relies on `nalgebra`'s `component_mul` (IEEE-754 multiplication).
#[verifier::external_body]
pub(crate) fn f32_mul(a: u32, b: u32) -> (r: u32)
    ensures
        r == mul_bits(a, b),
{
    let va: nalgebra_glm::Vec2 = nalgebra_glm::make_vec2(bytemuck::cast_slice(&[a, a]));
    let vb: nalgebra_glm::Vec2 = nalgebra_glm::make_vec2(bytemuck::cast_slice(&[b, b]));
    va.component_mul(&vb).x.to_bits()
}

/// Relies on `f32::to_radians` of std: a single multiplication by a constant,
/// deterministic in its operand.
#[verifier::external_body]
pub(crate) fn f32_to_radians(deg: u32) -> (r: u32)
    ensures
        r == rad_bits(deg),
{
    let v: nalgebra_glm::Vec2 = nalgebra_glm::make_vec2(bytemuck::cast_slice(&[deg, deg]));
    v.x.to_radians().to_bits()
}

/// Relies on `f32::to_degrees` of std: a single multiplication by a constant,
/// deterministic in its operand.
#[verifier::external_body]
pub(crate) fn f32_to_degrees(rad: u32) -> (r: u32)
    ensures
        r == deg_bits(rad),
{
    let v: nalgebra_glm::Vec2 = nalgebra_glm::make_vec2(bytemuck::cast_slice(&[rad, rad]));
    v.x.to_degrees().to_bits()
}

/// What the quotient of two scalars denotes.
pub uninterp spec fn div_bits(a: u32, b: u32) -> u32;

/// Relies on `nalgebra`'s `component_div` (IEEE-754 division; division by
/// zero yields an infinity or NaN pattern, it does not panic).
#[verifier::external_body]
pub(crate) fn f32_div(a: u32, b: u32) -> (r: u32)
    ensures
        r == div_bits(a, b),
{
    let va: nalgebra_glm::Vec2 = nalgebra_glm::make_vec2(bytemuck::cast_slice(&[a, a]));
    let vb: nalgebra_glm::Vec2 = nalgebra_glm::make_vec2(bytemuck::cast_slice(&[b, b]));
    va.component_div(&vb).x.to_bits()
}

/// What casting a 32-bit integer to a float denotes (rounding to nearest,
/// deterministic).
pub uninterp spec fn i32_bits(i: i32) -> u32;

/// Relies on `nalgebra`'s componentwise numeric cast from `i32` vectors to
/// float vectors.
#[verifier::external_body]
pub(crate) fn f32_from_i32(i: i32) -> (r: u32)
    ensures
        r == i32_bits(i),
{
    let iv: nalgebra_glm::IVec2 = nalgebra_glm::make_vec2(&[i, i]);
    let v: nalgebra_glm::Vec2 = iv.cast();
    v.x.to_bits()
}

/// Relies on `f32::cos` of std.  Its precision is not specified, so nothing
/// is claimed of the result.
#[verifier::external_body]
pub(crate) fn f32_cos(x: u32) -> u32 {
    let v: nalgebra_glm::Vec2 = nalgebra_glm::make_vec2(bytemuck::cast_slice(&[x, x]));
    v.x.cos().to_bits()
}

/// Relies on `f32::sin` of std.  Its precision is not specified, so nothing
/// is claimed of the result.
#[verifier::external_body]
pub(crate) fn f32_sin(x: u32) -> u32 {
    let v: nalgebra_glm::Vec2 = nalgebra_glm::make_vec2(bytemuck::cast_slice(&[x, x]));
    v.x.sin().to_bits()
}

} // verus!
