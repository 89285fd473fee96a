use crate::fixed_point::{in_range, mul_raw, scale, Fixed};
use fixed::types::I64F64;
use vstd::arithmetic::power2::{
    lemma2_to64, lemma2_to64_rest, lemma_pow2_adds, lemma_pow2_pos, lemma_pow2_unfold, pow2,
};
use vstd::prelude::*;

verus! {

/// The natural logarithm of two in raw form: `ln 2 * 2^64`, rounded down.
pub const LN_2_BITS: i128 = 0xB172_17F7_D1CF_79AB;

/// The number of binary digits computed after the point of a base-2 logarithm.
pub const LOG2_DIGITS: u32 = 62;

/// The raw form of one in the 62-bit scale in which mantissas are squared.
pub const MANTISSA_ONE: u128 = 0x4000_0000_0000_0000;

/// The raw form of two in the 62-bit scale in which mantissas are squared.
pub const MANTISSA_TWO: u128 = 0x8000_0000_0000_0000;

/// The position of the highest set bit of a positive integer: the `e` with
/// `2^e <= a < 2^(e + 1)`.
pub open spec fn floor_log2(a: int) -> nat
    decreases a,
{
    if a <= 1 {
        0
    } else {
        1 + floor_log2(a / 2)
    }
}

/// A positive raw value scaled by a power of two into `[2^62, 2^63)`: the mantissa of
/// the number, between one and two in the 62-bit scale.
pub open spec fn mantissa(a: int) -> int {
    let e = floor_log2(a);
    if e >= 62 {
        a / (pow2((e - 62) as nat) as int)
    } else {
        a * pow2((62 - e) as nat)
    }
}

/// The first `digits` binary digits after the point of the base-2 logarithm of a mantissa
/// `m` in `[2^62, 2^63)`, read as an integer. Squaring the mantissa doubles its logarithm:
/// the next digit is one exactly when the square reaches two, and the square, halved in
/// that case, is the mantissa for the digits that follow. Each square is rounded down to
/// the 62-bit scale.
pub open spec fn log2_fraction(m: int, digits: nat) -> int
    decreases digits,
{
    if digits == 0 {
        0
    } else {
        let square = (m * m) / (MANTISSA_ONE as int);
        if square >= MANTISSA_TWO {
            pow2((digits - 1) as nat) + log2_fraction(square / 2, (digits - 1) as nat)
        } else {
            log2_fraction(square, (digits - 1) as nat)
        }
    }
}

/// The base-2 logarithm of a positive raw value, in raw form: the whole part from the
/// position of the highest set bit, and 62 digits after the point from the mantissa.
pub open spec fn log2_raw(a: int) -> int {
    (floor_log2(a) - 64) * scale() + 4 * log2_fraction(mantissa(a), LOG2_DIGITS as nat)
}

/// The natural logarithm of a positive raw value, in raw form: its base-2 logarithm
/// times `ln 2`.
pub open spec fn ln_raw(a: int) -> int {
    mul_raw(log2_raw(a), LN_2_BITS as int)
}

/// A value between two neighbouring powers of two has the lower exponent as its
/// highest set bit.
pub proof fn lemma_floor_log2_between(a: int, e: nat)
    requires
        pow2(e) <= a < pow2(e + 1),
    ensures
        floor_log2(a) == e,
    decreases e,
{
    lemma2_to64();
    if e == 0 {
        assert(a == 1);
    } else {
        lemma_pow2_unfold(e);
        lemma_pow2_unfold(e + 1);
        lemma_pow2_pos((e - 1) as nat);
        assert(a >= 2);
        lemma_floor_log2_between(a / 2, (e - 1) as nat);
    }
}

/// The mantissa of a value lies between one and two in the 62-bit scale.
pub proof fn lemma_mantissa_range(a: int, e: nat)
    requires
        pow2(e) <= a < pow2(e + 1),
    ensures
        floor_log2(a) == e,
        MANTISSA_ONE <= mantissa(a) < MANTISSA_TWO,
{
    lemma_floor_log2_between(a, e);
    lemma2_to64();
    lemma2_to64_rest();
    if e >= 62 {
        let k = (e - 62) as nat;
        let p = pow2(k) as int;
        lemma_pow2_pos(k);
        lemma_pow2_adds(62, k);
        lemma_pow2_adds(63, k);
        assert(pow2(62) * p <= a);
        assert(a < pow2(63) * p);
        assert(pow2(62) <= a / p && a / p < pow2(63)) by (nonlinear_arith)
            requires
                p > 0,
                pow2(62) * p <= a,
                a < pow2(63) * p,
        ;
    } else {
        let k = (62 - e) as nat;
        let p = pow2(k) as int;
        lemma_pow2_pos(k);
        lemma_pow2_adds(e, k);
        lemma_pow2_adds(e + 1, k);
        assert(pow2(e) * p <= a * p && a * p < pow2(e + 1) * p) by (nonlinear_arith)
            requires
                p > 0,
                pow2(e) <= a,
                a < pow2(e + 1),
        ;
    }
}

/// The digits after the point, read as an integer, stay below `2^digits`.
pub proof fn lemma_log2_fraction_range(m: int, digits: nat)
    ensures
        0 <= log2_fraction(m, digits) < pow2(digits),
    decreases digits,
{
    lemma_pow2_pos(digits);
    if digits > 0 {
        let square = (m * m) / (MANTISSA_ONE as int);
        lemma_pow2_unfold(digits);
        lemma_log2_fraction_range(square / 2, (digits - 1) as nat);
        lemma_log2_fraction_range(square, (digits - 1) as nat);
    }
}

/// The mantissa of one has no digit set after the point.
pub proof fn lemma_log2_fraction_of_one(digits: nat)
    ensures
        log2_fraction(MANTISSA_ONE as int, digits) == 0,
    decreases digits,
{
    if digits > 0 {
        assert((MANTISSA_ONE as int) * (MANTISSA_ONE as int) / (MANTISSA_ONE as int)
            == MANTISSA_ONE as int) by (nonlinear_arith);
        lemma_log2_fraction_of_one((digits - 1) as nat);
    }
}

/// A value below `2^e` has its highest set bit below position `e`, and a value from `2^e`
/// on has it at position `e` or above.
pub proof fn lemma_floor_log2_ordered(a: int, e: nat)
    requires
        a >= 1,
    ensures
        a < pow2(e) ==> floor_log2(a) < e,
        a >= pow2(e) ==> floor_log2(a) >= e,
    decreases e,
{
    lemma2_to64();
    if e > 0 {
        lemma_pow2_unfold(e);
        lemma_pow2_pos((e - 1) as nat);
        if a >= 2 {
            lemma_floor_log2_ordered(a / 2, (e - 1) as nat);
        }
    }
}

/// The logarithm of one is zero.
pub proof fn lemma_ln_of_one()
    ensures
        ln_raw(scale()) == 0,
{
    lemma2_to64();
    lemma2_to64_rest();
    lemma_pow2_unfold(65);
    lemma_floor_log2_between(scale(), 64);
    assert(floor_log2(scale()) == 64);
    assert(pow2((64 - 62) as nat) == 4);
    assert(mantissa(scale()) == MANTISSA_ONE as int);
    lemma_log2_fraction_of_one(LOG2_DIGITS as nat);
    assert(log2_raw(scale()) == 0);
    assert(0 * (LN_2_BITS as int) == 0);
}

/// The logarithm of a positive number below one is negative, and that of a number from
/// one on is not.
pub proof fn lemma_ln_sign(a: int)
    requires
        a > 0,
    ensures
        a < scale() ==> ln_raw(a) < 0,
        a >= scale() ==> ln_raw(a) >= 0,
{
    lemma2_to64();
    lemma2_to64_rest();
    lemma_floor_log2_ordered(a, 64);
    lemma_log2_fraction_range(mantissa(a), LOG2_DIGITS as nat);
    let x = log2_raw(a);
    let c = LN_2_BITS as int;
    if a < scale() {
        let whole = floor_log2(a) - 64;
        assert(whole * scale() <= -scale()) by (nonlinear_arith)
            requires
                whole <= -1,
                scale() > 0,
        ;
        assert(x <= -1);
        assert(x * c < 0) by (nonlinear_arith)
            requires
                x <= -1,
                c > 0,
        ;
    } else {
        let whole = floor_log2(a) - 64;
        assert(whole * scale() >= 0) by (nonlinear_arith)
            requires
                whole >= 0,
                scale() > 0,
        ;
        assert(x * c >= 0) by (nonlinear_arith)
            requires
                x >= 0,
                c > 0,
        ;
    }
}

/// The integer base-2 logarithm through `fixed`'s `int_log2` on `I64F64`. That method
/// panics on a number that is not positive, and otherwise returns the position of the
/// highest set bit of the raw value, less the 64 fractional bits.
#[verifier::external_body]
fn outside_int_log2(a: i128) -> (e: i32)
    requires
        a > 0,
    ensures
        -64 <= e <= 62,
        pow2((e + 64) as nat) <= a < pow2((e + 65) as nat),
{
    I64F64::from_bits(a).int_log2()
}

/// The value of 2^126, the largest power of two that is doubled here.
proof fn lemma_pow2_126()
    ensures
        pow2(126) == 0x4000_0000_0000_0000_0000_0000_0000_0000,
{
    lemma2_to64_rest();
    lemma_pow2_adds(63, 63);
}

/// The power of two with the given exponent.
fn power_of_two(e: u32) -> (p: u128)
    requires
        e <= 127,
    ensures
        p == pow2(e as nat),
{
    let mut p: u128 = 1;
    let mut i: u32 = 0;
    proof {
        lemma2_to64();
    }
    while i < e
        invariant
            i <= e <= 127,
            p == pow2(i as nat),
        decreases e - i,
    {
        proof {
            lemma_pow2_unfold((i + 1) as nat);
            lemma_pow2_126();
            if i < 126 {
                vstd::arithmetic::power2::lemma_pow2_strictly_increases(i as nat, 126);
            }
        }
        p = p * 2;
        i = i + 1;
    }
    p
}

impl Fixed {
    /// The natural logarithm of a positive number: its base-2 logarithm, found digit by
    /// digit by squaring the mantissa, times `ln 2`.
    pub fn ln(self) -> (r: Fixed)
        requires
            self@ > 0,
        ensures
            r@ == ln_raw(self@),
            self == Fixed::one() ==> r == Fixed::zero(),
            self@ < scale() ==> r@ < 0,
            self@ >= scale() ==> r@ >= 0,
    {
        proof {
            lemma_ln_of_one();
            lemma_ln_sign(self@);
        }
        let e: i32 = outside_int_log2(self.bits);
        let high: u32 = (e + 64) as u32;
        proof {
            lemma_mantissa_range(self@, high as nat);
            lemma2_to64();
            lemma2_to64_rest();
        }
        let start: u128 = if high >= 62 {
            let p = power_of_two(high - 62);
            (self.bits as u128) / p
        } else {
            let p = power_of_two(62 - high);
            (self.bits as u128) * p
        };
        let mut m: u128 = start;
        let mut fraction: u128 = 0;
        let mut i: u32 = 0;
        while i < LOG2_DIGITS
            invariant
                i <= LOG2_DIGITS,
                MANTISSA_ONE <= m < MANTISSA_TWO,
                fraction < pow2(i as nat),
                pow2(i as nat) <= pow2(62),
                pow2(62) == 0x4000_0000_0000_0000,
                log2_fraction(start as int, LOG2_DIGITS as nat) == fraction * pow2(
                    (LOG2_DIGITS - i) as nat,
                ) + log2_fraction(m as int, (LOG2_DIGITS - i) as nat),
            decreases LOG2_DIGITS - i,
        {
            assert(m * m < 0x4000_0000_0000_0000_0000_0000_0000_0000) by (nonlinear_arith)
                requires
                    m < 0x8000_0000_0000_0000,
            ;
            assert(m * m >= 0x1000_0000_0000_0000_0000_0000_0000_0000) by (nonlinear_arith)
                requires
                    m >= 0x4000_0000_0000_0000,
            ;
            let square: u128 = (m * m) / MANTISSA_ONE;
            proof {
                lemma_pow2_unfold((LOG2_DIGITS - i) as nat);
                lemma_pow2_unfold((i + 1) as nat);
                if i + 1 < 62 {
                    vstd::arithmetic::power2::lemma_pow2_strictly_increases((i + 1) as nat, 62);
                }
                let rest = pow2((LOG2_DIGITS - i - 1) as nat) as int;
                assert(fraction * (2 * rest) == (2 * fraction) * rest) by (nonlinear_arith);
                assert((2 * fraction + 1) * rest == (2 * fraction) * rest + rest)
                    by (nonlinear_arith);
            }
            if square >= MANTISSA_TWO {
                m = square / 2;
                fraction = 2 * fraction + 1;
            } else {
                m = square;
                fraction = 2 * fraction;
            }
            i = i + 1;
        }
        proof {
            assert(pow2(0) == 1);
            assert(fraction * 1 == fraction) by (nonlinear_arith);
        }
        let whole: i128 = (e as i128) * crate::fixed_point::ONE_BITS;
        let log2 = Fixed { bits: whole + 4 * (fraction as i128) };
        assert(log2@ == log2_raw(self@));
        proof {
            let x = log2@;
            let c = LN_2_BITS as int;
            assert(-0x1_0000_0000_0000_0000 * 64 <= x <= 0x1_0000_0000_0000_0000 * 64);
            assert(-0x1_0000_0000_0000_0000 * 64 * c <= x * c && x * c
                <= 0x1_0000_0000_0000_0000 * 64 * c) by (nonlinear_arith)
                requires
                    -0x1_0000_0000_0000_0000 * 64 <= x <= 0x1_0000_0000_0000_0000 * 64,
                    c >= 0,
            ;
            assert(in_range(mul_raw(x, c)));
        }
        log2.checked_mul(Fixed { bits: LN_2_BITS }).unwrap()
    }
}

} // verus!
