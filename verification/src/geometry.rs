//! Geometry as the platform wants it: points and sizes in double precision.
//!
//! Numbers never appear here as floating-point values. A single-precision
//! number is the 32 bits of its IEEE 754 encoding, a double-precision number
//! the 64 bits of its encoding, and widening is arithmetic on those bits.

use crate::model::{Dimensions, Position};
use vstd::arithmetic::power2::{
    lemma2_to64, lemma2_to64_rest, lemma_pow2_adds, lemma_pow2_pos, lemma_pow2_unfold, pow2,
};
use vstd::prelude::*;

verus! {

/// A point in double precision. Each coordinate is held as its IEEE 754 bit
/// pattern.
#[derive(Clone, Copy, Debug, PartialEq, Eq, Structural)]
pub struct NativePoint {
    pub x: u64,
    pub y: u64,
}

/// A size in double precision. Each extent is held as its IEEE 754 bit
/// pattern.
#[derive(Clone, Copy, Debug, PartialEq, Eq, Structural)]
pub struct NativeSize {
    pub width: u64,
    pub height: u64,
}

/// The sign bit of a single-precision encoding.
pub open spec fn single_sign(bits: u32) -> nat {
    bits as nat / 0x8000_0000
}

/// The biased exponent of a single-precision encoding, 8 bits.
pub open spec fn single_exponent(bits: u32) -> nat {
    (bits as nat / 0x80_0000) % 0x100
}

/// The fraction of a single-precision encoding, 23 bits.
pub open spec fn single_fraction(bits: u32) -> nat {
    bits as nat % 0x80_0000
}

/// The sign bit of a double-precision encoding.
pub open spec fn double_sign(bits: u64) -> nat {
    bits as nat / 0x8000_0000_0000_0000
}

/// The biased exponent of a double-precision encoding, 11 bits.
pub open spec fn double_exponent(bits: u64) -> nat {
    (bits as nat / 0x10_0000_0000_0000) % 0x800
}

/// The fraction of a double-precision encoding, 52 bits.
pub open spec fn double_fraction(bits: u64) -> nat {
    bits as nat % 0x10_0000_0000_0000
}

/// The double-precision encoding with the given fields.
pub open spec fn double_bits(sign: nat, exponent: nat, fraction: nat) -> nat {
    sign * 0x8000_0000_0000_0000 + exponent * 0x10_0000_0000_0000 + fraction
}

/// The position of the highest bit that is set in `n`, counted from 0.
pub open spec fn top_bit(n: nat) -> nat
    decreases n,
{
    if n < 2 {
        0
    } else {
        1 + top_bit(n / 2)
    }
}

/// The double-precision encoding of the number that `bits` encodes in single
/// precision.
///
/// Zeros and infinities keep their sign. A normal number keeps its fraction
/// and has its exponent rebiased. A subnormal number becomes normal: its
/// highest set bit turns into the implicit leading one. A NaN stays a NaN,
/// keeps its sign and payload, and comes out quiet.
pub open spec fn widened(bits: u32) -> nat {
    let sign = single_sign(bits);
    let exponent = single_exponent(bits);
    let fraction = single_fraction(bits);
    if exponent == 0xff {
        if fraction == 0 {
            double_bits(sign, 0x7ff, 0)
        } else if fraction < 0x40_0000 {
            double_bits(sign, 0x7ff, 0x8_0000_0000_0000 + fraction * 0x2000_0000)
        } else {
            double_bits(sign, 0x7ff, fraction * 0x2000_0000)
        }
    } else if exponent == 0 {
        if fraction == 0 {
            double_bits(sign, 0, 0)
        } else {
            let top = top_bit(fraction);
            double_bits(
                sign,
                874 + top,
                ((fraction - pow2(top)) * pow2((52 - top) as nat)) as nat,
            )
        }
    } else {
        double_bits(sign, exponent + 896, fraction * 0x2000_0000)
    }
}

/// The significand of a finite single-precision number: the number is, up
/// to its sign, `single_significand × 2^single_scale`.
pub open spec fn single_significand(bits: u32) -> nat {
    if single_exponent(bits) == 0 {
        single_fraction(bits)
    } else {
        0x80_0000 + single_fraction(bits)
    }
}

/// The power of two by which the significand of a finite single-precision
/// number is scaled.
pub open spec fn single_scale(bits: u32) -> int {
    if single_exponent(bits) == 0 {
        -149
    } else {
        single_exponent(bits) - 150
    }
}

/// The significand of a finite double-precision number: the number is, up
/// to its sign, `double_significand × 2^double_scale`.
pub open spec fn double_significand(bits: u64) -> nat {
    if double_exponent(bits) == 0 {
        double_fraction(bits)
    } else {
        0x10_0000_0000_0000 + double_fraction(bits)
    }
}

/// The power of two by which the significand of a finite double-precision
/// number is scaled.
pub open spec fn double_scale(bits: u64) -> int {
    if double_exponent(bits) == 0 {
        -1074
    } else {
        double_exponent(bits) - 1075
    }
}

/// Whether `a × 2^p` and `b × 2^q` are the same number.
pub open spec fn same_magnitude(a: nat, p: int, b: nat, q: int) -> bool {
    if p >= q {
        a * pow2((p - q) as nat) == b
    } else {
        a == b * pow2((q - p) as nat)
    }
}

/// A number between two neighbouring powers of two has its highest set bit
/// at the position of the lower one.
proof fn lemma_top_bit_between(n: nat, k: nat)
    requires
        pow2(k) <= n < pow2(k + 1),
    ensures
        top_bit(n) == k,
    decreases k,
{
    lemma2_to64();
    if k > 0 {
        lemma_pow2_unfold(k);
        lemma_pow2_unfold(k + 1);
        lemma_top_bit_between(n / 2, (k - 1) as nat);
    }
}

/// A subnormal fraction that `shift` doublings bring into the range of a
/// normal significand: where its highest bit stands, and what is left of it
/// below that bit, moved up into a 52-bit fraction.
proof fn lemma_normalised(fraction: nat, shift: nat, scaled: nat)
    requires
        shift <= 23,
        scaled == fraction * pow2(shift),
        0x80_0000 <= scaled < 0x100_0000,
    ensures
        top_bit(fraction) == 23 - shift,
        (fraction - pow2((23 - shift) as nat)) * pow2((29 + shift) as nat) == (scaled - 0x80_0000)
            * 0x2000_0000,
{
    let top = (23 - shift) as nat;
    let p = pow2(shift);
    let q = pow2(top);
    let r = pow2(top + 1);
    lemma2_to64();
    lemma_pow2_pos(shift);
    lemma_pow2_adds(top, shift);
    lemma_pow2_adds(top + 1, shift);
    lemma_pow2_adds(29, shift);
    assert(q * p == 0x80_0000);
    assert(r * p == 0x100_0000);
    assert(q <= fraction) by (nonlinear_arith)
        requires
            q * p <= fraction * p,
            p > 0,
    ;
    assert(fraction < r) by (nonlinear_arith)
        requires
            fraction * p < r * p,
            p > 0,
    ;
    lemma_top_bit_between(fraction, top);
    assert((fraction - q) * (0x2000_0000 * p) == (fraction * p - q * p) * 0x2000_0000)
        by (nonlinear_arith);
}

/// Widens a single-precision number to double precision.
pub fn widen(bits: u32) -> (wide: u64)
    ensures
        wide == widened(bits),
{
    let sign: u64 = (bits / 0x8000_0000) as u64;
    let exponent: u64 = ((bits / 0x80_0000) % 0x100) as u64;
    let fraction: u64 = (bits % 0x80_0000) as u64;
    let high: u64 = sign * 0x8000_0000_0000_0000;
    if exponent == 0xff {
        if fraction == 0 {
            high + 0x7ff * 0x10_0000_0000_0000
        } else if fraction < 0x40_0000 {
            high + 0x7ff * 0x10_0000_0000_0000 + (0x8_0000_0000_0000 + fraction * 0x2000_0000)
        } else {
            high + 0x7ff * 0x10_0000_0000_0000 + fraction * 0x2000_0000
        }
    } else if exponent == 0 {
        if fraction == 0 {
            high
        } else {
            let mut scaled: u64 = fraction;
            let mut shift: u64 = 0;
            proof {
                lemma2_to64();
            }
            while scaled < 0x80_0000
                invariant
                    0 < fraction < 0x80_0000,
                    0 < scaled < 0x100_0000,
                    shift <= 23,
                    scaled == fraction * pow2(shift as nat),
                decreases 23 - shift,
            {
                proof {
                    lemma2_to64();
                    if shift == 23 {
                        assert(fraction * 0x80_0000 >= 0x80_0000) by (nonlinear_arith)
                            requires
                                fraction >= 1,
                        ;
                    }
                    lemma_pow2_unfold((shift + 1) as nat);
                    assert(fraction * (2 * pow2(shift as nat)) == 2 * (fraction * pow2(
                        shift as nat,
                    ))) by (nonlinear_arith);
                }
                scaled = scaled * 2;
                shift = shift + 1;
            }
            proof {
                lemma_normalised(fraction as nat, shift as nat, scaled as nat);
            }
            high + (897 - shift) * 0x10_0000_0000_0000 + (scaled - 0x80_0000) * 0x2000_0000
        }
    } else {
        high + (exponent + 896) * 0x10_0000_0000_0000 + fraction * 0x2000_0000
    }
}

/// The point at a position, with both coordinates widened.
pub fn native_point(position: Position) -> (point: NativePoint)
    ensures
        point.x == widened(position.x),
        point.y == widened(position.y),
{
    NativePoint { x: widen(position.x), y: widen(position.y) }
}

/// The size for a pair of dimensions, with both extents widened.
pub fn native_size(dimensions: Dimensions) -> (size: NativeSize)
    ensures
        size.width == widened(dimensions.w),
        size.height == widened(dimensions.h),
{
    NativeSize { width: widen(dimensions.w), height: widen(dimensions.h) }
}

/// Powers of two do not decrease with the exponent.
proof fn lemma_pow2_monotonic(low: nat, high: nat)
    requires
        low <= high,
    ensures
        pow2(low) <= pow2(high),
    decreases high - low,
{
    if low < high {
        lemma_pow2_monotonic(low, (high - 1) as nat);
        lemma_pow2_unfold(high);
    }
}

/// A positive number lies between the power of two at its highest set bit
/// and the next one.
proof fn lemma_top_bit_bounds(n: nat)
    requires
        n > 0,
    ensures
        pow2(top_bit(n)) <= n < pow2(top_bit(n) + 1),
    decreases n,
{
    lemma2_to64();
    if n >= 2 {
        lemma_top_bit_bounds(n / 2);
        lemma_pow2_unfold(top_bit(n));
        lemma_pow2_unfold(top_bit(n) + 1);
    }
}

/// The fields of an encoding that was put together from fields in range are
/// those fields.
proof fn lemma_double_fields(sign: nat, exponent: nat, fraction: nat)
    requires
        sign <= 1,
        exponent < 0x800,
        fraction < 0x10_0000_0000_0000,
    ensures
        double_bits(sign, exponent, fraction) <= u64::MAX,
        double_sign(double_bits(sign, exponent, fraction) as u64) == sign,
        double_exponent(double_bits(sign, exponent, fraction) as u64) == exponent,
        double_fraction(double_bits(sign, exponent, fraction) as u64) == fraction,
{
}

/// Widening loses nothing.
///
/// The result has the sign of the input. An infinity stays an infinity and a
/// NaN stays a NaN. Every finite number, subnormal ones included, comes out
/// as a finite double-precision number of exactly the same value.
pub proof fn lemma_widening_is_exact(bits: u32)
    ensures
        widened(bits) <= u64::MAX,
        double_sign(widened(bits) as u64) == single_sign(bits),
        single_exponent(bits) == 0xff ==> double_exponent(widened(bits) as u64) == 0x7ff && (
        double_fraction(widened(bits) as u64) == 0 <==> single_fraction(bits) == 0),
        single_exponent(bits) != 0xff ==> double_exponent(widened(bits) as u64) != 0x7ff
            && same_magnitude(
            single_significand(bits),
            single_scale(bits),
            double_significand(widened(bits) as u64),
            double_scale(widened(bits) as u64),
        ),
{
    let sign = single_sign(bits);
    let exponent = single_exponent(bits);
    let fraction = single_fraction(bits);
    lemma2_to64();
    lemma2_to64_rest();
    if exponent == 0xff {
        if fraction == 0 {
            lemma_double_fields(sign, 0x7ff, 0);
        } else if fraction < 0x40_0000 {
            lemma_double_fields(sign, 0x7ff, 0x8_0000_0000_0000 + fraction * 0x2000_0000);
        } else {
            lemma_double_fields(sign, 0x7ff, fraction * 0x2000_0000);
        }
    } else if exponent == 0 {
        if fraction == 0 {
            lemma_double_fields(sign, 0, 0);
        } else {
            let top = top_bit(fraction);
            let q = pow2(top);
            let up = pow2((52 - top) as nat);
            lemma_top_bit_bounds(fraction);
            if top >= 23 {
                lemma_pow2_monotonic(23, top);
            }
            lemma_pow2_pos((52 - top) as nat);
            lemma_pow2_unfold(top + 1);
            lemma_pow2_adds(top, (52 - top) as nat);
            assert(0 <= (fraction - q) * up < q * up && fraction * up == q * up + (fraction - q)
                * up) by (nonlinear_arith)
                requires
                    q <= fraction < 2 * q,
                    up > 0,
            ;
            lemma_double_fields(sign, 874 + top, ((fraction - q) * up) as nat);
        }
    } else {
        lemma_double_fields(sign, exponent + 896, fraction * 0x2000_0000);
        let wide = widened(bits) as u64;
        assert(single_scale(bits) - double_scale(wide) == 29);
        assert(single_significand(bits) * 0x2000_0000 == double_significand(wide));
    }
}

} // verus!
