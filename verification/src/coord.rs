//! Window coordinates as the host delivers them: IEEE-754 single-precision
//! numbers, carried here by their bit pattern, and their truncation to whole
//! pixels.

use vstd::prelude::*;
use vstd::arithmetic::power2::{pow2, lemma2_to64, lemma_pow2_pos, lemma_pow2_strictly_increases};
use vstd::bits::{lemma_u32_shl_is_mul, lemma_u32_shr_is_div};

verus! {

/// Whether the sign bit of a single-precision bit pattern is set.
pub open spec fn single_is_negative(bits: u32) -> bool {
    bits >= 0x8000_0000
}

/// The biased exponent field (8 bits) of a single-precision bit pattern.
pub open spec fn single_exponent(bits: u32) -> int {
    (bits as int / 0x80_0000) % 0x100
}

/// The fraction field (23 bits) of a single-precision bit pattern.
pub open spec fn single_fraction(bits: u32) -> int {
    bits as int % 0x80_0000
}

/// Whether a single-precision bit pattern is a NaN.
pub open spec fn single_is_nan(bits: u32) -> bool {
    single_exponent(bits) == 0xff && single_fraction(bits) != 0
}

/// The absolute value of the number behind `bits`, rounded down to a whole
/// number.
///
/// A number with exponent field `e >= 127` has the magnitude
/// `(2^23 + fraction) * 2^(e - 150)`; one with a smaller exponent field lies
/// strictly between -1 and 1. For an infinity (`e == 255`) the formula gives
/// a value beyond every 32-bit integer, which is all that is asked of it.
pub open spec fn single_whole_magnitude(bits: u32) -> int {
    let e = single_exponent(bits);
    let significand = 0x80_0000 + single_fraction(bits);
    if e < 127 {
        0
    } else if e <= 150 {
        significand / (pow2((150 - e) as nat) as int)
    } else {
        significand * (pow2((e - 150) as nat) as int)
    }
}

/// The number behind `bits` truncated toward zero and brought into the range
/// of `i32`: a NaN gives 0, a number beyond the range gives the nearest bound.
pub open spec fn truncated(bits: u32) -> int {
    let magnitude = single_whole_magnitude(bits);
    if single_is_nan(bits) {
        0
    } else if single_is_negative(bits) {
        if magnitude >= 0x8000_0000 {
            i32::MIN as int
        } else {
            -magnitude
        }
    } else {
        if magnitude > i32::MAX {
            i32::MAX as int
        } else {
            magnitude
        }
    }
}

/// A truncated coordinate always fits in an `i32`.
pub proof fn lemma_truncated_fits(bits: u32)
    ensures
        i32::MIN <= truncated(bits) <= i32::MAX,
{
    let e = single_exponent(bits);
    let significand = 0x80_0000 + single_fraction(bits);
    if 127 <= e <= 150 {
        let d = pow2((150 - e) as nat) as int;
        lemma_pow2_pos((150 - e) as nat);
        assert(significand / d >= 0) by (nonlinear_arith)
            requires
                d >= 1,
                significand >= 0,
        ;
    } else if e > 150 {
        let f = pow2((e - 150) as nat) as int;
        assert(significand * f >= 0) by (nonlinear_arith)
            requires
                f >= 0,
                significand >= 0,
        ;
    }
}

/// Truncates the single-precision number with the given bit pattern toward
/// zero, saturating at the bounds of `i32`.
pub fn truncate_single(bits: u32) -> (whole: i32)
    ensures
        whole == truncated(bits),
    no_unwind
{
    let negative = bits >= 0x8000_0000;
    let exponent: u32 = (bits >> 23) & 0xff;
    let fraction: u32 = bits & 0x7f_ffff;
    let significand: u32 = fraction | 0x80_0000;
    proof {
        assert((bits >> 23) & 0xff == (bits / 0x80_0000) % 0x100) by (bit_vector);
        assert(bits & 0x7f_ffff == bits % 0x80_0000) by (bit_vector);
        assert(fraction | 0x80_0000 == fraction + 0x80_0000) by (bit_vector)
            requires
                fraction < 0x80_0000,
        ;
        lemma2_to64();
    }
    if exponent == 255 && fraction != 0 {
        0
    } else if exponent < 127 {
        0
    } else if exponent >= 158 {
        proof {
            let shift = (exponent - 150) as nat;
            if shift > 8 {
                lemma_pow2_strictly_increases(8, shift);
            }
            assert(significand * (pow2(shift) as int) >= 0x8000_0000) by (nonlinear_arith)
                requires
                    significand >= 0x80_0000,
                    pow2(shift) >= 0x100,
            ;
        }
        if negative {
            i32::MIN
        } else {
            i32::MAX
        }
    } else {
        let magnitude: u32 = if exponent <= 150 {
            let shift: u32 = 150 - exponent;
            proof {
                lemma_u32_shr_is_div(significand, shift);
                lemma_pow2_pos(shift as nat);
            }
            significand >> shift
        } else {
            let shift: u32 = exponent - 150;
            proof {
                if shift < 7 {
                    lemma_pow2_strictly_increases(shift as nat, 7);
                }
                assert(significand * (pow2(shift as nat) as int) < 0x8000_0000) by (nonlinear_arith)
                    requires
                        significand < 0x100_0000,
                        pow2(shift as nat) <= 0x80,
                ;
                lemma_u32_shl_is_mul(significand, shift);
            }
            significand << shift
        };
        assert(magnitude < 0x8000_0000) by {
            if exponent <= 150 {
                let d = pow2((150 - exponent) as nat) as int;
                lemma_pow2_pos((150 - exponent) as nat);
                assert(significand as int / d <= significand as int) by (nonlinear_arith)
                    requires
                        d >= 1,
                        significand >= 0,
                ;
            }
        }
        if negative {
            -(magnitude as i32)
        } else {
            magnitude as i32
        }
    }
}

} // verus!
