use crate::errors::TutorialError;
use fixed::types::I64F64;
use vstd::prelude::*;

verus! {

/// The raw representation of the number one: 2^64.
pub const ONE_BITS: i128 = 0x1_0000_0000_0000_0000;

/// The largest whole amount that has a fixed-point representation: `i64::MAX`.
pub const MAX_AMOUNT: u64 = 0x7FFF_FFFF_FFFF_FFFF;

/// 2^64 as a mathematical integer: the factor between a number and its raw representation.
pub open spec fn scale() -> int {
    0x1_0000_0000_0000_0000
}

/// Whether a raw value is representable in 128 signed bits.
pub open spec fn in_range(raw: int) -> bool {
    i128::MIN <= raw <= i128::MAX
}

/// The quotient of `a` by `b`, rounded towards zero. Meaningful for `b != 0`.
pub open spec fn trunc_div(a: int, b: int) -> int {
    if a >= 0 && b > 0 {
        a / b
    } else if a < 0 && b < 0 {
        (-a) / (-b)
    } else if a < 0 {
        -((-a) / b)
    } else {
        -(a / (-b))
    }
}

/// The raw product of two raw values: the exact product, rounded towards minus infinity.
pub open spec fn mul_raw(a: int, b: int) -> int {
    (a * b) / scale()
}

/// The raw quotient of two raw values: the exact quotient, rounded towards zero.
/// Meaningful for `b != 0`.
pub open spec fn div_raw(a: int, b: int) -> int {
    trunc_div(a * scale(), b)
}

/// Whether `root` is the raw square root of the raw value `a`, rounded down:
/// `root / 2^64 <= sqrt(a / 2^64) < (root + 1) / 2^64`.
pub open spec fn is_sqrt_raw(a: int, root: int) -> bool {
    &&& 0 <= root
    &&& root * root <= a * scale()
    &&& a * scale() < (root + 1) * (root + 1)
}

/// The raw square root of the raw value `a`, rounded down. Meaningful for `a >= 0`.
pub open spec fn sqrt_raw(a: int) -> int {
    choose|root: int| is_sqrt_raw(a, root)
}

/// A signed fixed-point number with 64 integer and 64 fractional bits.
/// The number it stands for is `bits / 2^64`.
#[derive(Clone, Copy, Debug, PartialEq, Eq, Structural)]
pub struct Fixed {
    pub bits: i128,
}

impl View for Fixed {
    type V = int;

    /// The raw value as a mathematical integer.
    open spec fn view(&self) -> int {
        self.bits as int
    }
}

/// Multiplies through `fixed`'s `checked_mul` on `I64F64`. That method forms the exact
/// 256-bit product of the raw values, shifts it right arithmetically by 64 bits, and
/// reports `None` when the shifted value does not fit in 128 signed bits.
#[verifier::external_body]
fn outside_mul(a: i128, b: i128) -> (product: Option<i128>)
    ensures
        in_range(mul_raw(a as int, b as int)) ==> product == Some(mul_raw(a as int, b as int) as i128),
        !in_range(mul_raw(a as int, b as int)) ==> product.is_none(),
{
    match I64F64::from_bits(a).checked_mul(I64F64::from_bits(b)) {
        Some(p) => Some(p.to_bits()),
        None => None,
    }
}

/// Divides through `fixed`'s `checked_div` on `I64F64`. That method reports `None` for a
/// zero divisor; otherwise it divides the raw dividend, widened and shifted left by 64
/// bits, by the raw divisor, rounding towards zero, and reports `None` when the quotient
/// does not fit in 128 signed bits.
#[verifier::external_body]
fn outside_div(a: i128, b: i128) -> (quotient: Option<i128>)
    ensures
        b != 0 && in_range(div_raw(a as int, b as int)) ==> quotient == Some(
            div_raw(a as int, b as int) as i128,
        ),
        b == 0 || !in_range(div_raw(a as int, b as int)) ==> quotient.is_none(),
{
    match I64F64::from_bits(a).checked_div(I64F64::from_bits(b)) {
        Some(q) => Some(q.to_bits()),
        None => None,
    }
}

/// Takes the square root through `fixed`'s `sqrt` on `I64F64`, which panics on a negative
/// number and otherwise returns the root rounded down, with an error below one unit in
/// the last place: `result <= sqrt(self) < result + DELTA`.
#[verifier::external_body]
fn outside_sqrt(a: i128) -> (root: i128)
    requires
        a >= 0,
    ensures
        is_sqrt_raw(a as int, root as int),
{
    I64F64::from_bits(a).sqrt().to_bits()
}

/// Any two roots of one value are the same: the rounded-down square root is unique.
pub proof fn lemma_sqrt_raw_unique(a: int, r1: int, r2: int)
    requires
        is_sqrt_raw(a, r1),
        is_sqrt_raw(a, r2),
    ensures
        r1 == r2,
{
    if r1 < r2 {
        assert((r1 + 1) * (r1 + 1) <= r2 * r2) by (nonlinear_arith)
            requires
                0 <= r1,
                r1 + 1 <= r2,
        ;
    } else if r2 < r1 {
        assert((r2 + 1) * (r2 + 1) <= r1 * r1) by (nonlinear_arith)
            requires
                0 <= r2,
                r2 + 1 <= r1,
        ;
    }
}

/// Every value that is not negative has a rounded-down square root, and the root of a
/// representable value is representable.
pub proof fn lemma_sqrt_raw_exists(a: int)
    requires
        0 <= a,
    ensures
        is_sqrt_raw(a, sqrt_raw(a)),
        0 <= sqrt_raw(a),
        a <= i128::MAX ==> sqrt_raw(a) <= i128::MAX,
{
    let target = a * scale();
    assert(0 <= target && target < (target + 1) * (target + 1)) by (nonlinear_arith)
        requires
            a >= 0,
            target == a * scale(),
    ;
    lemma_sqrt_raw_below(a, target);
    let root = sqrt_raw(a);
    if a <= i128::MAX && root > i128::MAX {
        assert(root * root > a * scale()) by (nonlinear_arith)
            requires
                root > 0x7FFF_FFFF_FFFF_FFFF_FFFF_FFFF_FFFF_FFFF,
                0 <= a <= 0x7FFF_FFFF_FFFF_FFFF_FFFF_FFFF_FFFF_FFFF,
                scale() == 0x1_0000_0000_0000_0000,
        ;
    }
}

/// Below any bound whose successor squared exceeds a value in raw form lies the
/// rounded-down square root of the value.
proof fn lemma_sqrt_raw_below(a: int, bound: int)
    requires
        0 <= a,
        0 <= bound,
        a * scale() < (bound + 1) * (bound + 1),
    ensures
        exists|root: int| #[trigger] is_sqrt_raw(a, root),
    decreases bound,
{
    if bound * bound <= a * scale() {
        assert(is_sqrt_raw(a, bound));
    } else {
        assert(bound > 0 && a * scale() >= 0) by (nonlinear_arith)
            requires
                bound * bound > a * scale(),
                a >= 0,
                bound >= 0,
                scale() > 0,
        ;
        lemma_sqrt_raw_below(a, bound - 1);
    }
}

/// Multiplying by a whole number is exact: nothing is rounded away.
pub proof fn lemma_mul_raw_whole(a: int, n: int)
    ensures
        mul_raw(a, n * scale()) == a * n,
{
    assert(a * (n * scale()) == (a * n) * scale()) by (nonlinear_arith);
    vstd::arithmetic::div_mod::lemma_div_multiples_vanish(a * n, scale());
}

/// The raw product of a number that is not negative grows with the other factor.
pub proof fn lemma_mul_raw_monotonic(a: int, b1: int, b2: int)
    requires
        0 <= a,
        b1 <= b2,
    ensures
        mul_raw(a, b1) <= mul_raw(a, b2),
{
    assert(a * b1 <= a * b2) by (nonlinear_arith)
        requires
            0 <= a,
            b1 <= b2,
    ;
    vstd::arithmetic::div_mod::lemma_div_is_ordered(a * b1, a * b2, scale());
}

/// The raw product of two numbers that are not negative is not negative.
pub proof fn lemma_mul_raw_nonnegative(a: int, b: int)
    requires
        0 <= a,
        0 <= b,
    ensures
        0 <= mul_raw(a, b),
{
    lemma_mul_raw_monotonic(a, 0, b);
    assert(a * 0 == 0);
}

/// The quotient of two whole numbers: the whole dividend in raw form, divided by the
/// whole divisor and rounded down.
pub proof fn lemma_div_raw_whole(a: int, b: int)
    requires
        0 <= a,
        0 < b,
    ensures
        div_raw(a * scale(), b * scale()) == (a * scale()) / b,
        0 <= div_raw(a * scale(), b * scale()) <= a * scale(),
{
    let s = scale();
    assert(a * s >= 0) by (nonlinear_arith)
        requires
            a >= 0,
            s > 0,
    ;
    assert((a * s) * s >= 0) by (nonlinear_arith)
        requires
            a * s >= 0,
            s > 0,
    ;
    assert(b * s > 0) by (nonlinear_arith)
        requires
            b > 0,
            s > 0,
    ;
    assert(b * s == s * b) by (nonlinear_arith);
    vstd::arithmetic::div_mod::lemma_div_denominator((a * s) * s, s, b);
    vstd::arithmetic::div_mod::lemma_div_multiples_vanish(a * s, s);
    vstd::arithmetic::div_mod::lemma_div_nonincreasing(a * s, b);
    vstd::arithmetic::div_mod::lemma_div_pos_is_pos(a * s, b);
}

/// The whole part of the quotient of two whole numbers is their quotient, rounded down:
/// rounding the raw quotient first loses nothing more.
pub proof fn lemma_whole_part_of_quotient(a: int, b: int)
    requires
        0 <= a,
        0 < b,
    ensures
        ((a * scale()) / b) / scale() == a / b,
{
    let s = scale();
    assert(a * s >= 0) by (nonlinear_arith)
        requires
            a >= 0,
            s > 0,
    ;
    assert(b * s == s * b) by (nonlinear_arith);
    vstd::arithmetic::div_mod::lemma_div_denominator(a * s, b, s);
    vstd::arithmetic::div_mod::lemma_div_denominator(a * s, s, b);
    vstd::arithmetic::div_mod::lemma_div_multiples_vanish(a, s);
}

/// The product of two whole numbers is whole, and nothing is rounded away.
pub proof fn lemma_mul_raw_of_wholes(a: int, b: int)
    ensures
        mul_raw(a * scale(), b * scale()) == (a * b) * scale(),
{
    lemma_mul_raw_whole(a * scale(), b);
    assert((a * scale()) * b == (a * b) * scale()) by (nonlinear_arith);
}

impl Fixed {
    /// The number zero.
    pub open spec fn spec_zero() -> Fixed {
        Fixed { bits: 0 }
    }

    /// The number one.
    pub open spec fn spec_one() -> Fixed {
        Fixed { bits: ONE_BITS }
    }

    /// The whole number `n`. Meaningful where `n * 2^64` is representable, as it is for
    /// every `n` from `i64::MIN` to `i64::MAX`.
    pub open spec fn spec_from_int(n: int) -> Fixed {
        Fixed { bits: (n * scale()) as i128 }
    }

    /// The unsigned whole number `n`, which is representable up to `i64::MAX`.
    pub open spec fn spec_from_u64(n: u64) -> Result<Fixed, TutorialError> {
        if n <= i64::MAX {
            Ok(Fixed::spec_from_int(n as int))
        } else {
            Err(TutorialError::ArithmeticOverflow)
        }
    }

    /// The quotient of two unsigned whole numbers, rounded down. Both must be
    /// representable, and the divisor not zero.
    pub open spec fn spec_ratio(numerator: u64, denominator: u64) -> Result<Fixed, TutorialError> {
        match Fixed::spec_from_u64(numerator) {
            Err(e) => Err(e),
            Ok(n) => match Fixed::spec_from_u64(denominator) {
                Err(e) => Err(e),
                Ok(d) => n.spec_checked_div(d),
            },
        }
    }

    /// The largest whole number that is not above this number.
    pub open spec fn spec_floor_int(self) -> int {
        self@ / scale()
    }

    /// The largest whole number not above this number, as an unsigned amount. A negative
    /// number has none.
    pub open spec fn spec_to_u64(self) -> Result<u64, TutorialError> {
        if self@ >= 0 {
            Ok(self.spec_floor_int() as u64)
        } else {
            Err(TutorialError::ArithmeticOverflow)
        }
    }

    /// The number with the raw value `raw`, where that is representable.
    pub open spec fn spec_checked(raw: int) -> Result<Fixed, TutorialError> {
        if in_range(raw) {
            Ok(Fixed { bits: raw as i128 })
        } else {
            Err(TutorialError::ArithmeticOverflow)
        }
    }

    /// The sum, where it is representable.
    pub open spec fn spec_checked_add(self, rhs: Fixed) -> Result<Fixed, TutorialError> {
        Fixed::spec_checked(self@ + rhs@)
    }

    /// The difference, where it is representable.
    pub open spec fn spec_checked_sub(self, rhs: Fixed) -> Result<Fixed, TutorialError> {
        Fixed::spec_checked(self@ - rhs@)
    }

    /// The product, rounded towards minus infinity, where it is representable.
    pub open spec fn spec_checked_mul(self, rhs: Fixed) -> Result<Fixed, TutorialError> {
        Fixed::spec_checked(mul_raw(self@, rhs@))
    }

    /// The quotient, rounded towards zero, where the divisor is not zero and the quotient
    /// is representable.
    pub open spec fn spec_checked_div(self, rhs: Fixed) -> Result<Fixed, TutorialError> {
        if rhs@ == 0 {
            Err(TutorialError::DivisionByZero)
        } else {
            Fixed::spec_checked(div_raw(self@, rhs@))
        }
    }

    /// The absolute value, where it is representable.
    pub open spec fn spec_checked_abs(self) -> Result<Fixed, TutorialError> {
        Fixed::spec_checked(
            if self@ < 0 {
                -self@
            } else {
                self@
            },
        )
    }

    /// The square root, rounded down. Meaningful for a number that is not negative.
    pub open spec fn spec_sqrt(self) -> Fixed {
        Fixed { bits: sqrt_raw(self@) as i128 }
    }

    /// The number rounded down to a whole number.
    pub open spec fn spec_floor(self) -> Fixed {
        Fixed { bits: (self.spec_floor_int() * scale()) as i128 }
    }

    #[verifier::when_used_as_spec(spec_zero)]
    pub fn zero() -> (r: Fixed)
        ensures
            r == Fixed::spec_zero(),
    {
        Fixed { bits: 0 }
    }

    #[verifier::when_used_as_spec(spec_one)]
    pub fn one() -> (r: Fixed)
        ensures
            r == Fixed::spec_one(),
    {
        Fixed { bits: ONE_BITS }
    }

    /// Builds a number from its raw representation.
    pub fn from_bits(bits: i128) -> (r: Fixed)
        ensures
            r.bits == bits,
    {
        Fixed { bits }
    }

    /// The raw representation: the number times 2^64.
    pub fn to_bits(self) -> (bits: i128)
        ensures
            bits == self.bits,
    {
        self.bits
    }

    /// Converts a signed whole number. Every `i64` is representable.
    pub fn from_i64(n: i64) -> (r: Fixed)
        ensures
            r@ == n * scale(),
            r == Fixed::spec_from_int(n as int),
    {
        Fixed { bits: (n as i128) * ONE_BITS }
    }

    /// Converts an unsigned whole number. Every `u16` is representable.
    pub fn from_u16(n: u16) -> (r: Fixed)
        ensures
            r@ == n * scale(),
            r == Fixed::spec_from_int(n as int),
    {
        Fixed { bits: (n as i128) * ONE_BITS }
    }

    /// Converts an unsigned whole number, which is representable up to `i64::MAX`.
    pub fn from_u64(n: u64) -> (r: Result<Fixed, TutorialError>)
        ensures
            r == Fixed::spec_from_u64(n),
            r.is_ok() ==> r.unwrap()@ == n * scale(),
    {
        if n > i64::MAX as u64 {
            Err(TutorialError::ArithmeticOverflow)
        } else {
            Ok(Fixed { bits: (n as i128) * ONE_BITS })
        }
    }

    /// The quotient of two unsigned whole numbers, rounded down.
    pub fn ratio(numerator: u64, denominator: u64) -> (r: Result<Fixed, TutorialError>)
        ensures
            r == Fixed::spec_ratio(numerator, denominator),
    {
        let n = Fixed::from_u64(numerator)?;
        let d = Fixed::from_u64(denominator)?;
        n.checked_div(d)
    }

    /// The largest whole number not above this number, as an unsigned amount.
    /// A negative number has none.
    pub fn to_u64(self) -> (r: Result<u64, TutorialError>)
        ensures
            r == self.spec_to_u64(),
            r.is_ok() ==> r.unwrap() == self@ / scale(),
    {
        if self.bits < 0 {
            Err(TutorialError::ArithmeticOverflow)
        } else {
            let whole: u128 = (self.bits as u128) / 0x1_0000_0000_0000_0000u128;
            Ok(whole as u64)
        }
    }

    /// The number rounded down to a whole number. Every number has one: the least whole
    /// number is representable.
    pub fn floor(self) -> (r: Fixed)
        ensures
            r == self.spec_floor(),
            r@ == (self@ / scale()) * scale(),
            r@ <= self@ < r@ + scale(),
    {
        if self.bits >= 0 {
            let whole: u128 = (self.bits as u128) / 0x1_0000_0000_0000_0000u128;
            Fixed { bits: (whole as i128) * ONE_BITS }
        } else {
            // For a negative raw value `b`, the floor of `b / 2^64` is
            // `-1 - floor((-1 - b) / 2^64)`.
            let below: u128 = (-(self.bits + 1)) as u128;
            let whole: u128 = below / 0x1_0000_0000_0000_0000u128;
            Fixed { bits: (-1 - (whole as i128)) * ONE_BITS }
        }
    }

    /// The sum, where it is representable.
    pub fn checked_add(self, rhs: Fixed) -> (r: Result<Fixed, TutorialError>)
        ensures
            r == self.spec_checked_add(rhs),
    {
        match self.bits.checked_add(rhs.bits) {
            Some(bits) => Ok(Fixed { bits }),
            None => Err(TutorialError::ArithmeticOverflow),
        }
    }

    /// The difference, where it is representable.
    pub fn checked_sub(self, rhs: Fixed) -> (r: Result<Fixed, TutorialError>)
        ensures
            r == self.spec_checked_sub(rhs),
    {
        match self.bits.checked_sub(rhs.bits) {
            Some(bits) => Ok(Fixed { bits }),
            None => Err(TutorialError::ArithmeticOverflow),
        }
    }

    /// The product, rounded towards minus infinity, where it is representable.
    pub fn checked_mul(self, rhs: Fixed) -> (r: Result<Fixed, TutorialError>)
        ensures
            r == self.spec_checked_mul(rhs),
    {
        match outside_mul(self.bits, rhs.bits) {
            Some(bits) => Ok(Fixed { bits }),
            None => Err(TutorialError::ArithmeticOverflow),
        }
    }

    /// The quotient, rounded towards zero, where the divisor is not zero and the quotient
    /// is representable.
    pub fn checked_div(self, rhs: Fixed) -> (r: Result<Fixed, TutorialError>)
        ensures
            r == self.spec_checked_div(rhs),
    {
        if rhs.bits == 0 {
            return Err(TutorialError::DivisionByZero);
        }
        match outside_div(self.bits, rhs.bits) {
            Some(bits) => Ok(Fixed { bits }),
            None => Err(TutorialError::ArithmeticOverflow),
        }
    }

    /// The square root of a number that is not negative, rounded down.
    pub fn sqrt(self) -> (r: Fixed)
        requires
            self@ >= 0,
        ensures
            r == self.spec_sqrt(),
            is_sqrt_raw(self@, r@),
    {
        let root = outside_sqrt(self.bits);
        proof {
            lemma_sqrt_raw_unique(self@, root as int, sqrt_raw(self@));
        }
        Fixed { bits: root }
    }

    /// The absolute value, where it is representable.
    pub fn checked_abs(self) -> (r: Result<Fixed, TutorialError>)
        ensures
            r == self.spec_checked_abs(),
    {
        if self.bits >= 0 {
            Ok(self)
        } else if self.bits == i128::MIN {
            Err(TutorialError::ArithmeticOverflow)
        } else {
            Ok(Fixed { bits: -self.bits })
        }
    }
}

} // verus!
