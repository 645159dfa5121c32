//! Probabilities as IEEE 754 binary64 bit patterns.
//!
//! A rate travels as the 64 bits of a double-precision number. This module says which number a bit
//! pattern stands for and decides, on the bits alone, whether it lies between 0 and 1 and which
//! share of all 64-bit draws it asks for. Magnitudes are counted in units of the smallest positive
//! number, 2^-1074, so that every finite magnitude is a natural number.

use vstd::prelude::*;

verus! {

/// The bits of `1.0`.
pub const ONE_BITS: u64 = 0x3FF0_0000_0000_0000;

/// The bits of `0.0`.
pub const ZERO_BITS: u64 = 0;

/// The bits of `-0.0`, which is also the sign bit.
pub const NEGATIVE_ZERO_BITS: u64 = 0x8000_0000_0000_0000;

/// The bits of positive infinity.
pub const INFINITY_BITS: u64 = 0x7FF0_0000_0000_0000;

/// 2^52, the weight of the lowest exponent bit.
const FRACTION_RANGE: u64 = 0x10_0000_0000_0000;

/// 2^11, the number of exponents.
const EXPONENT_RANGE: u64 = 0x800;

/// The sign bit is set.
pub open spec fn is_negative(bits: u64) -> bool {
    bits >= NEGATIVE_ZERO_BITS
}

/// The biased exponent.
pub open spec fn exponent(bits: u64) -> nat {
    ((bits / 0x10_0000_0000_0000) % 0x800) as nat
}

/// The bits below the exponent.
pub open spec fn fraction(bits: u64) -> nat {
    (bits % 0x10_0000_0000_0000) as nat
}

/// The pattern stands for a number, neither infinite nor "not a number".
pub open spec fn is_finite(bits: u64) -> bool {
    exponent(bits) < 0x7FF
}

/// The pattern is "not a number".
pub open spec fn is_nan(bits: u64) -> bool {
    exponent(bits) == 0x7FF && fraction(bits) != 0
}

/// The digits of a finite number, with the leading one that normal numbers leave out.
pub open spec fn significand(bits: u64) -> nat {
    if exponent(bits) == 0 {
        fraction(bits)
    } else {
        fraction(bits) + 0x10_0000_0000_0000
    }
}

/// By which power of two the digits of a finite number are scaled, counted from the smallest.
pub open spec fn scale(bits: u64) -> nat {
    if exponent(bits) == 0 {
        0
    } else {
        (exponent(bits) - 1) as nat
    }
}

/// The absolute value of a finite number, in units of 2^-1074.
pub open spec fn magnitude(bits: u64) -> nat {
    significand(bits) * vstd::arithmetic::power2::pow2(scale(bits))
}

/// The number 1, in units of 2^-1074.
pub open spec fn one() -> nat {
    vstd::arithmetic::power2::pow2(1074)
}

/// The pattern stands for a number between 0 and 1, both included. Negative zero is zero.
pub open spec fn in_unit_interval(bits: u64) -> bool {
    &&& is_finite(bits)
    &&& magnitude(bits) <= one()
    &&& is_negative(bits) ==> magnitude(bits) == 0
}

/// The share of the 2^64 draws that a number between 0 and 1 asks for, rounded down, and at most
/// the largest 64-bit number.
pub open spec fn threshold_spec(bits: u64) -> u64 {
    let share = magnitude(bits) * vstd::arithmetic::power2::pow2(64) / one();
    if share <= u64::MAX {
        share as u64
    } else {
        u64::MAX
    }
}

/// The number brought into the range from 0 to 1. What is not a number counts as 0, and so does
/// negative zero.
pub open spec fn clamp_spec(bits: u64) -> u64 {
    if is_nan(bits) || is_negative(bits) {
        ZERO_BITS
    } else if in_unit_interval(bits) {
        bits
    } else {
        ONE_BITS
    }
}

/// The digits of a finite number are below 2^53, and those of a number with a large exponent are
/// at least 2^52.
proof fn lemma_fields(bits: u64)
    ensures
        fraction(bits) < 0x10_0000_0000_0000,
        exponent(bits) < 0x800,
        significand(bits) < 0x20_0000_0000_0000,
        !is_negative(bits) ==> bits == exponent(bits) * 0x10_0000_0000_0000 + fraction(bits),
        is_negative(bits) ==> bits == NEGATIVE_ZERO_BITS + exponent(bits) * 0x10_0000_0000_0000
            + fraction(bits),
{
}

/// 2^52 and 2^53 as powers.
proof fn lemma_digit_powers()
    ensures
        vstd::arithmetic::power2::pow2(52) == 0x10_0000_0000_0000,
        vstd::arithmetic::power2::pow2(53) == 0x20_0000_0000_0000,
        vstd::arithmetic::power2::pow2(64) == 0x1_0000_0000_0000_0000,
{
    vstd::arithmetic::power2::lemma2_to64();
    vstd::arithmetic::power2::lemma2_to64_rest();
}

/// The magnitude of a finite number compares with 1 as its exponent and digits say.
proof fn lemma_compare_with_one(bits: u64)
    requires
        is_finite(bits),
    ensures
        exponent(bits) < 1023 ==> magnitude(bits) < one(),
        exponent(bits) == 1023 ==> (magnitude(bits) <= one() <==> fraction(bits) == 0),
        exponent(bits) == 1023 && fraction(bits) == 0 ==> magnitude(bits) == one(),
        exponent(bits) > 1023 ==> magnitude(bits) > one(),
        magnitude(bits) == 0 <==> significand(bits) == 0,
{
    lemma_fields(bits);
    lemma_digit_powers();
    let digits = significand(bits) as int;
    let e = scale(bits);
    let factor = vstd::arithmetic::power2::pow2(e) as int;
    vstd::arithmetic::power2::lemma_pow2_pos(e);
    assert(digits * factor == 0 <==> digits == 0) by (nonlinear_arith)
        requires
            factor > 0,
            digits >= 0,
    ;
    if exponent(bits) < 1023 {
        vstd::arithmetic::power2::lemma_pow2_adds(53, e);
        assert(digits * factor < 0x20_0000_0000_0000 * factor) by (nonlinear_arith)
            requires
                factor > 0,
                digits < 0x20_0000_0000_0000,
        ;
        if 53 + e < 1074 {
            vstd::arithmetic::power2::lemma_pow2_strictly_increases((53 + e) as nat, 1074);
        }
    } else if exponent(bits) == 1023 {
        vstd::arithmetic::power2::lemma_pow2_adds(52, 1022);
        assert(digits > 0x10_0000_0000_0000 ==> digits * factor > 0x10_0000_0000_0000 * factor)
            by (nonlinear_arith)
            requires
                factor > 0,
        ;
    } else {
        vstd::arithmetic::power2::lemma_pow2_adds(52, e);
        vstd::arithmetic::power2::lemma_pow2_strictly_increases(1074, (52 + e) as nat);
        assert(digits * factor >= 0x10_0000_0000_0000 * factor) by (nonlinear_arith)
            requires
                factor > 0,
                digits >= 0x10_0000_0000_0000,
        ;
    }
}

/// The named bit patterns stand for 0 and for 1.
pub proof fn lemma_zero_and_one()
    ensures
        in_unit_interval(ZERO_BITS),
        in_unit_interval(NEGATIVE_ZERO_BITS),
        in_unit_interval(ONE_BITS),
        magnitude(ZERO_BITS) == 0,
        magnitude(NEGATIVE_ZERO_BITS) == 0,
        magnitude(ONE_BITS) == one(),
{
    lemma_fields(ZERO_BITS);
    lemma_fields(NEGATIVE_ZERO_BITS);
    lemma_fields(ONE_BITS);
    lemma_compare_with_one(ZERO_BITS);
    lemma_compare_with_one(NEGATIVE_ZERO_BITS);
    lemma_compare_with_one(ONE_BITS);
}

/// Whether the number lies between 0 and 1.
pub fn is_in_unit_interval(bits: u64) -> (inside: bool)
    ensures
        inside == in_unit_interval(bits),
        inside == (bits <= 0x3FF0_0000_0000_0000 || bits == 0x8000_0000_0000_0000),
{
    proof {
        lemma_fields(bits);
        if is_finite(bits) {
            lemma_compare_with_one(bits);
        }
    }
    bits <= ONE_BITS || bits == NEGATIVE_ZERO_BITS
}

/// Brings a number into the range from 0 to 1.
pub fn clamp_to_unit_interval(bits: u64) -> (clamped: u64)
    ensures
        clamped == clamp_spec(bits),
        in_unit_interval(clamped),
        bits >= 0x8000_0000_0000_0000 || bits > 0x7FF0_0000_0000_0000 ==> clamped == 0,
        bits <= 0x3FF0_0000_0000_0000 ==> clamped == bits,
        0x3FF0_0000_0000_0000 < bits <= 0x7FF0_0000_0000_0000 ==> clamped
            == 0x3FF0_0000_0000_0000,
{
    proof {
        lemma_fields(bits);
        lemma_compare_with_one(ZERO_BITS);
        lemma_compare_with_one(ONE_BITS);
        if is_finite(bits) {
            lemma_compare_with_one(bits);
        }
    }
    if bits >= NEGATIVE_ZERO_BITS || bits > INFINITY_BITS {
        ZERO_BITS
    } else if bits <= ONE_BITS {
        bits
    } else {
        ONE_BITS
    }
}

/// The share of draws in terms of the digits and the scale.
proof fn lemma_share(digits: nat, e: nat)
    ensures
        ({
            let share = digits * vstd::arithmetic::power2::pow2(e)
                * vstd::arithmetic::power2::pow2(64) / one();
            if e >= 1010 {
                share == digits * vstd::arithmetic::power2::pow2((e - 1010) as nat)
            } else {
                share == digits / vstd::arithmetic::power2::pow2((1010 - e) as nat)
            }
        }),
{
    let d = digits as int;
    let p = vstd::arithmetic::power2::pow2(e) as int;
    let q = vstd::arithmetic::power2::pow2(64) as int;
    vstd::arithmetic::power2::lemma_pow2_adds(e, 64);
    let pq = vstd::arithmetic::power2::pow2((e + 64) as nat) as int;
    assert(d * p * q == d * pq) by (nonlinear_arith)
        requires
            p * q == pq,
    ;
    let whole = one() as int;
    vstd::arithmetic::power2::lemma_pow2_pos(1074);
    vstd::arithmetic::power2::lemma_pow2_pos((e + 64) as nat);
    if e >= 1010 {
        let r = vstd::arithmetic::power2::pow2((e - 1010) as nat) as int;
        vstd::arithmetic::power2::lemma_pow2_adds(1074, (e - 1010) as nat);
        assert(d * pq == (d * r) * whole) by (nonlinear_arith)
            requires
                pq == whole * r,
        ;
        assert(0 <= d * r) by (nonlinear_arith)
            requires
                0 <= d,
                0 <= r,
        ;
        vstd::arithmetic::div_mod::lemma_div_by_multiple(d * r, whole);
    } else {
        let r = vstd::arithmetic::power2::pow2((1010 - e) as nat) as int;
        vstd::arithmetic::power2::lemma_pow2_pos((1010 - e) as nat);
        vstd::arithmetic::power2::lemma_pow2_adds((e + 64) as nat, (1010 - e) as nat);
        vstd::arithmetic::div_mod::lemma_div_multiples_vanish_quotient(pq, d, r);
        assert(d * pq == pq * d) by (nonlinear_arith);
    }
}

/// The share of all 64-bit draws that a number between 0 and 1 asks for.
///
/// A draw below the threshold is one of the share.
pub fn threshold(bits: u64) -> (result: u64)
    requires
        in_unit_interval(bits),
    ensures
        result == threshold_spec(bits),
        magnitude(bits) < one() ==> result * one() <= magnitude(bits) * 0x1_0000_0000_0000_0000 < (
        result + 1) * one(),
        magnitude(bits) == one() ==> result == u64::MAX,
{
    proof {
        law_threshold_is_the_share(bits);
        lemma_fields(bits);
        lemma_compare_with_one(bits);
        lemma_digit_powers();
        lemma_share(significand(bits), scale(bits));
    }
    let biased: u64 = (bits / FRACTION_RANGE) % EXPONENT_RANGE;
    let low: u64 = bits % FRACTION_RANGE;
    if biased == 0 {
        proof {
            vstd::arithmetic::power2::lemma_pow2_strictly_increases(53, 1010);
            vstd::arithmetic::div_mod::lemma_basic_div(
                significand(bits) as int,
                vstd::arithmetic::power2::pow2(1010) as int,
            );
        }
        return 0;
    }
    let digits: u64 = low + FRACTION_RANGE;
    let power: u64 = biased - 1;
    if power >= 1022 {
        proof {
            vstd::arithmetic::power2::lemma_pow2_adds(52, 12);
            assert(magnitude(bits) * vstd::arithmetic::power2::pow2(64) / one()
                == 0x1_0000_0000_0000_0000);
        }
        u64::MAX
    } else if power >= 1010 {
        let shift: u64 = power - 1010;
        proof {
            let factor = vstd::arithmetic::power2::pow2(shift as nat) as int;
            vstd::arithmetic::power2::lemma_pow2_adds(53, 11);
            if shift < 11 {
                vstd::arithmetic::power2::lemma_pow2_strictly_increases(shift as nat, 11);
            }
            assert(digits * factor < 0x1_0000_0000_0000_0000) by (nonlinear_arith)
                requires
                    0 <= digits < 0x20_0000_0000_0000,
                    0 <= factor <= vstd::arithmetic::power2::pow2(11),
                    0x20_0000_0000_0000 * vstd::arithmetic::power2::pow2(11)
                        == 0x1_0000_0000_0000_0000,
            ;
            vstd::bits::lemma_u64_shl_is_mul(digits, shift);
        }
        digits << shift
    } else {
        let shift: u64 = 1010 - power;
        if shift >= 53 {
            proof {
                if shift > 53 {
                    vstd::arithmetic::power2::lemma_pow2_strictly_increases(53, shift as nat);
                }
                vstd::arithmetic::div_mod::lemma_basic_div(
                    digits as int,
                    vstd::arithmetic::power2::pow2(shift as nat) as int,
                );
            }
            0
        } else {
            proof {
                vstd::bits::lemma_u64_shr_is_div(digits, shift);
            }
            digits >> shift
        }
    }
}

/// A larger probability never asks for a smaller share of the draws.
pub proof fn law_threshold_is_monotone(smaller: u64, larger: u64)
    requires
        in_unit_interval(smaller),
        in_unit_interval(larger),
        magnitude(smaller) <= magnitude(larger),
    ensures
        threshold_spec(smaller) <= threshold_spec(larger),
{
    let factor = vstd::arithmetic::power2::pow2(64) as int;
    vstd::arithmetic::power2::lemma_pow2_pos(64);
    vstd::arithmetic::power2::lemma_pow2_pos(1074);
    vstd::arithmetic::mul::lemma_mul_inequality(
        magnitude(smaller) as int,
        magnitude(larger) as int,
        factor,
    );
    vstd::arithmetic::div_mod::lemma_div_is_ordered(
        magnitude(smaller) * factor,
        magnitude(larger) * factor,
        one() as int,
    );
}

/// A probability of 0, of either sign, asks for no draw, and a probability of 1 for all but the
/// largest.
pub proof fn law_threshold_at_the_ends(bits: u64)
    requires
        in_unit_interval(bits),
    ensures
        magnitude(bits) == 0 ==> threshold_spec(bits) == 0,
        magnitude(bits) == one() ==> threshold_spec(bits) == u64::MAX,
{
    lemma_digit_powers();
    vstd::arithmetic::power2::lemma_pow2_pos(1074);
    let whole = one() as int;
    if magnitude(bits) == 0 {
        vstd::arithmetic::div_mod::lemma_basic_div(0, whole);
    }
    if magnitude(bits) == one() {
        vstd::arithmetic::div_mod::lemma_div_multiples_vanish(0x1_0000_0000_0000_0000, whole);
    }
}

/// The threshold is the rate's share of the 2^64 draws, rounded down: no whole draw is missing, and
/// none is too many. Only the rate 1 is one draw short of its share.
pub proof fn law_threshold_is_the_share(bits: u64)
    requires
        in_unit_interval(bits),
    ensures
        magnitude(bits) < one() ==> threshold_spec(bits) * one() <= magnitude(bits)
            * 0x1_0000_0000_0000_0000 < (threshold_spec(bits) + 1) * one(),
        magnitude(bits) == one() ==> threshold_spec(bits) == 0xFFFF_FFFF_FFFF_FFFF,
{
    lemma_digit_powers();
    vstd::arithmetic::power2::lemma_pow2_pos(1074);
    let whole = one() as int;
    if magnitude(bits) == one() {
        law_threshold_at_the_ends(bits);
    } else {
        let scaled = magnitude(bits) as int * 0x1_0000_0000_0000_0000;
        let share = scaled / whole;
        vstd::arithmetic::div_mod::lemma_fundamental_div_mod(scaled, whole);
        vstd::arithmetic::div_mod::lemma_mod_division_less_than_divisor(scaled, whole);
        assert(share * whole <= scaled < (share + 1) * whole) by (nonlinear_arith)
            requires
                scaled == whole * share + scaled % whole,
                0 <= scaled % whole < whole,
        ;
        assert(share < 0x1_0000_0000_0000_0000) by (nonlinear_arith)
            requires
                share * whole <= scaled,
                scaled == magnitude(bits) * 0x1_0000_0000_0000_0000,
                magnitude(bits) < whole,
        ;
        assert(share >= 0) by (nonlinear_arith)
            requires
                scaled < (share + 1) * whole,
                scaled >= 0,
                whole > 0,
        ;
    }
}

/// Up to the second exponent the bits count the units of the smallest number.
pub proof fn law_small_numbers_count_units(bits: u64)
    requires
        bits < 0x20_0000_0000_0000,
    ensures
        magnitude(bits) == bits,
{
    lemma_fields(bits);
    vstd::arithmetic::power2::lemma2_to64();
    assert(significand(bits) * 1 == significand(bits));
}

/// The next exponent with the same digits stands for twice the number.
pub proof fn law_next_exponent_doubles(bits: u64)
    requires
        0x10_0000_0000_0000 <= bits < 0x7FE0_0000_0000_0000,
    ensures
        magnitude((bits + 0x10_0000_0000_0000) as u64) == 2 * magnitude(bits),
{
    let next = (bits + 0x10_0000_0000_0000) as u64;
    lemma_fields(bits);
    lemma_fields(next);
    assert(fraction(next) == fraction(bits));
    assert(exponent(next) == exponent(bits) + 1);
    let digits = significand(bits) as int;
    let power = vstd::arithmetic::power2::pow2(scale(bits)) as int;
    vstd::arithmetic::power2::lemma_pow2_unfold(scale(next));
    assert(digits * (2 * power) == 2 * (digits * power)) by (nonlinear_arith);
}

/// The sign does not count, and of two numbers that are not negative the larger has the larger
/// bits.
pub proof fn law_bits_are_ordered_like_numbers(bits: u64)
    requires
        bits < 0x7FEF_FFFF_FFFF_FFFF,
    ensures
        magnitude((bits + 0x8000_0000_0000_0000) as u64) == magnitude(bits),
        magnitude(bits) < magnitude((bits + 1) as u64),
{
    let mirrored = (bits + 0x8000_0000_0000_0000) as u64;
    let next = (bits + 1) as u64;
    lemma_fields(bits);
    lemma_fields(mirrored);
    lemma_fields(next);
    assert(fraction(mirrored) == fraction(bits));
    assert(exponent(mirrored) == exponent(bits));
    vstd::arithmetic::power2::lemma_pow2_pos(scale(bits));
    let power = vstd::arithmetic::power2::pow2(scale(bits)) as int;
    let digits = significand(bits) as int;
    if exponent(next) == exponent(bits) {
        assert(significand(next) == digits + 1);
        assert((digits + 1) * power > digits * power) by (nonlinear_arith)
            requires
                power > 0,
        ;
    } else {
        assert(exponent(next) == exponent(bits) + 1);
        assert(fraction(next) == 0);
        if exponent(bits) == 0 {
            assert(scale(next) == scale(bits));
            assert(0x10_0000_0000_0000 * power > digits * power) by (nonlinear_arith)
                requires
                    power > 0,
                    digits < 0x10_0000_0000_0000,
            ;
        } else {
            vstd::arithmetic::power2::lemma_pow2_unfold(scale(next));
            assert(0x10_0000_0000_0000 * (2 * power) > digits * power) by (nonlinear_arith)
                requires
                    power > 0,
                    digits < 0x20_0000_0000_0000,
            ;
        }
    }
}

/// A pattern stands for a number between 0 and 1 if and only if its bits are those of 1 at most, or
/// those of negative zero; and if and only if its number is at most 1 and not below 0.
pub proof fn law_unit_interval_on_the_bits(bits: u64)
    ensures
        in_unit_interval(bits) <==> bits <= 0x3FF0_0000_0000_0000 || bits == 0x8000_0000_0000_0000,
        in_unit_interval(bits) ==> 0 <= magnitude(bits) <= magnitude(0x3FF0_0000_0000_0000),
        is_nan(bits) <==> bits % 0x8000_0000_0000_0000 > 0x7FF0_0000_0000_0000,
        is_negative(bits) <==> bits >= 0x8000_0000_0000_0000,
{
    lemma_fields(bits);
    lemma_zero_and_one();
    if is_finite(bits) {
        lemma_compare_with_one(bits);
    }
}

/// To clamp a number is to take the nearest one between 0 and 1, and 0 for what is no number.
pub proof fn law_clamp_takes_the_nearest(bits: u64)
    ensures
        in_unit_interval(clamp_spec(bits)),
        clamp_spec(bits) <= 0x3FF0_0000_0000_0000,
        bits <= 0x3FF0_0000_0000_0000 ==> clamp_spec(bits) == bits,
        0x3FF0_0000_0000_0000 < bits <= 0x7FF0_0000_0000_0000 ==> magnitude(clamp_spec(bits))
            == one(),
        bits > 0x7FF0_0000_0000_0000 ==> magnitude(clamp_spec(bits)) == 0,
{
    law_unit_interval_on_the_bits(bits);
    lemma_zero_and_one();
    lemma_fields(bits);
}

} // verus!
