use anchor_spl_amm::errors::TutorialError;
use anchor_spl_amm::fixed_point::{Fixed, MAX_AMOUNT, ONE_BITS};
use anchor_spl_amm::logarithm::LN_2_BITS;
use fixed::types::I64F64;

fn raw(bits: i128) -> Fixed {
    Fixed::from_bits(bits)
}

#[test]
fn one_and_zero_have_their_raw_values() {
    assert_eq!(Fixed::zero().to_bits(), 0);
    assert_eq!(Fixed::one().to_bits(), ONE_BITS);
    assert_eq!(Fixed::one().to_bits(), I64F64::ONE.to_bits());
}

#[test]
fn whole_numbers_convert_exactly() {
    assert_eq!(Fixed::from_i64(3).to_bits(), 3i128 << 64);
    assert_eq!(Fixed::from_i64(-3).to_bits(), -(3i128 << 64));
    assert_eq!(Fixed::from_i64(i64::MIN).to_bits(), i128::MIN);
    assert_eq!(Fixed::from_u16(10000).to_bits(), I64F64::from_num(10000).to_bits());
    assert_eq!(Fixed::from_u64(7), Ok(raw(7i128 << 64)));
}

#[test]
fn unsigned_amounts_are_representable_up_to_the_limit() {
    assert_eq!(MAX_AMOUNT, i64::MAX as u64);
    assert_eq!(Fixed::from_u64(MAX_AMOUNT), Ok(raw((MAX_AMOUNT as i128) << 64)));
    assert_eq!(Fixed::from_u64(MAX_AMOUNT + 1), Err(TutorialError::ArithmeticOverflow));
    assert_eq!(Fixed::from_u64(u64::MAX), Err(TutorialError::ArithmeticOverflow));
}

#[test]
fn to_u64_rounds_down_and_refuses_negatives() {
    assert_eq!(raw(5 * ONE_BITS / 2).to_u64(), Ok(2));
    assert_eq!(raw(ONE_BITS - 1).to_u64(), Ok(0));
    assert_eq!(raw(0).to_u64(), Ok(0));
    assert_eq!(raw(i128::MAX).to_u64(), Ok(i64::MAX as u64));
    assert_eq!(raw(-1).to_u64(), Err(TutorialError::ArithmeticOverflow));
}

#[test]
fn floor_rounds_towards_minus_infinity() {
    assert_eq!(raw(5 * ONE_BITS / 2).floor(), Fixed::from_i64(2));
    assert_eq!(raw(-1).floor(), Fixed::from_i64(-1));
    assert_eq!(raw(-5 * ONE_BITS / 2).floor(), Fixed::from_i64(-3));
    assert_eq!(Fixed::from_i64(-4).floor(), Fixed::from_i64(-4));
    assert_eq!(raw(i128::MIN).floor(), raw(i128::MIN));
    assert_eq!(raw(i128::MAX).floor(), Fixed::from_i64(i64::MAX));
    assert_eq!(raw(-5 * ONE_BITS / 2).floor().to_bits(), I64F64::from_bits(-5 * ONE_BITS / 2).floor().to_bits());
}

#[test]
fn sums_and_differences_are_checked() {
    assert_eq!(raw(5).checked_add(raw(-7)), Ok(raw(-2)));
    assert_eq!(raw(5).checked_sub(raw(-7)), Ok(raw(12)));
    assert_eq!(raw(i128::MAX).checked_add(raw(1)), Err(TutorialError::ArithmeticOverflow));
    assert_eq!(raw(i128::MIN).checked_sub(raw(1)), Err(TutorialError::ArithmeticOverflow));
    assert_eq!(raw(i128::MAX).checked_add(raw(0)), Ok(raw(i128::MAX)));
}

#[test]
fn products_round_towards_minus_infinity() {
    assert_eq!(Fixed::from_i64(3).checked_mul(Fixed::from_i64(-4)), Ok(Fixed::from_i64(-12)));
    assert_eq!(raw(1).checked_mul(raw(1)), Ok(raw(0)));
    assert_eq!(raw(-1).checked_mul(raw(1)), Ok(raw(-1)));
    assert_eq!(raw(3 * ONE_BITS / 2).checked_mul(raw(3 * ONE_BITS / 2)), Ok(raw(9 * ONE_BITS / 4)));
}

#[test]
fn products_out_of_range_are_refused() {
    assert_eq!(
        Fixed::from_i64(i64::MAX).checked_mul(Fixed::from_i64(2)),
        Err(TutorialError::ArithmeticOverflow)
    );
    assert_eq!(
        Fixed::from_i64(i64::MIN).checked_mul(Fixed::from_i64(-1)),
        Err(TutorialError::ArithmeticOverflow)
    );
    assert_eq!(Fixed::from_i64(i64::MIN).checked_mul(Fixed::one()), Ok(raw(i128::MIN)));
}

#[test]
fn quotients_round_towards_zero() {
    assert_eq!(Fixed::from_i64(1).checked_div(Fixed::from_i64(3)), Ok(raw(6148914691236517205)));
    assert_eq!(Fixed::from_i64(-1).checked_div(Fixed::from_i64(3)), Ok(raw(-6148914691236517205)));
    assert_eq!(raw(-1).checked_div(Fixed::from_i64(2)), Ok(raw(0)));
    assert_eq!(Fixed::from_i64(12).checked_div(Fixed::from_i64(-4)), Ok(Fixed::from_i64(-3)));
}

#[test]
fn quotients_by_zero_and_out_of_range_are_refused() {
    assert_eq!(Fixed::one().checked_div(Fixed::zero()), Err(TutorialError::DivisionByZero));
    assert_eq!(Fixed::zero().checked_div(Fixed::zero()), Err(TutorialError::DivisionByZero));
    assert_eq!(
        Fixed::from_i64(i64::MAX).checked_div(raw(ONE_BITS / 2)),
        Err(TutorialError::ArithmeticOverflow)
    );
}

#[test]
fn ratio_divides_two_amounts() {
    assert_eq!(Fixed::ratio(1, 3), Ok(raw(6148914691236517205)));
    assert_eq!(Fixed::ratio(6, 3), Ok(Fixed::from_i64(2)));
    assert_eq!(Fixed::ratio(1, 0), Err(TutorialError::DivisionByZero));
    assert_eq!(Fixed::ratio(u64::MAX, 1), Err(TutorialError::ArithmeticOverflow));
    assert_eq!(Fixed::ratio(1, u64::MAX), Err(TutorialError::ArithmeticOverflow));
}

#[test]
fn absolute_value_is_checked() {
    assert_eq!(raw(-3).checked_abs(), Ok(raw(3)));
    assert_eq!(raw(3).checked_abs(), Ok(raw(3)));
    assert_eq!(raw(0).checked_abs(), Ok(raw(0)));
    assert_eq!(raw(i128::MIN).checked_abs(), Err(TutorialError::ArithmeticOverflow));
}

#[test]
fn square_root_rounds_down() {
    assert_eq!(Fixed::from_i64(2).sqrt().to_bits(), 0x1_6a09_e667_f3bc_c908);
    assert_eq!(Fixed::from_i64(2).sqrt().to_bits(), I64F64::SQRT_2.to_bits());
    assert_eq!(Fixed::from_i64(9).sqrt(), Fixed::from_i64(3));
    assert_eq!(Fixed::one().sqrt(), Fixed::one());
    assert_eq!(Fixed::zero().sqrt(), Fixed::zero());
    assert_eq!(Fixed::from_i64(8760).sqrt().to_bits(), 1726520644020053685479);
}

#[test]
fn square_root_brackets_its_argument() {
    let values: [i128; 6] = [1, 2, 3, ONE_BITS - 1, 1234567890123456789, ONE_BITS / 2 + 12345];
    for a in values {
        let root = raw(a).sqrt().to_bits();
        assert!(root >= 0);
        let root = root as u128;
        let scaled = (a as u128) << 64;
        assert!(root * root <= scaled);
        assert!((root + 1).checked_mul(root + 1).map_or(true, |next| scaled < next));
    }
}

#[test]
fn square_root_agrees_with_the_fixed_crate() {
    let values: [i128; 7] = [0, 1, 5, ONE_BITS, 999 * ONE_BITS / 7, i128::MAX / 3, i128::MAX];
    for a in values {
        assert_eq!(raw(a).sqrt().to_bits(), I64F64::from_bits(a).sqrt().to_bits());
    }
}

#[test]
fn logarithm_of_two_is_the_constant() {
    assert_eq!(Fixed::from_i64(2).ln().to_bits(), LN_2_BITS);
    assert_eq!(LN_2_BITS, I64F64::LN_2.to_bits());
    assert_eq!(raw(ONE_BITS / 2).ln().to_bits(), -LN_2_BITS);
}

#[test]
fn logarithm_of_one_is_zero() {
    assert_eq!(Fixed::one().ln(), Fixed::zero());
}

#[test]
fn logarithm_has_the_sign_of_the_distance_from_one() {
    assert!(raw(ONE_BITS - 1).ln().to_bits() < 0);
    assert!(raw(1).ln().to_bits() < 0);
    assert!(raw(ONE_BITS + 1).ln().to_bits() >= 0);
    assert!(Fixed::from_i64(3).ln().to_bits() > 0);
    assert!(raw(i128::MAX).ln().to_bits() > 0);
}

#[test]
fn logarithm_exact_values() {
    assert_eq!(Fixed::from_i64(10).ln().to_bits(), 42475197918399869016);
    assert_eq!(raw(20291418481080506777).ln().to_bits(), 1758162494469621398);
}

#[test]
fn logarithm_is_close_to_the_floating_point_logarithm() {
    let values: [f64; 8] = [0.001, 0.37, 0.999, 1.001, 1.1, 2.5, 1000.0, 1.0e15];
    for x in values {
        let a = I64F64::from_num(x);
        let got = I64F64::from_bits(raw(a.to_bits()).ln().to_bits()).to_num::<f64>();
        let want = a.to_num::<f64>().ln();
        assert!((got - want).abs() < 1.0e-12, "ln({}) = {} but got {}", x, want, got);
    }
}

#[test]
fn arithmetic_agrees_with_the_fixed_crate() {
    let values: [i128; 9] = [
        0,
        1,
        -1,
        ONE_BITS,
        -ONE_BITS,
        3 * ONE_BITS / 7,
        -(123456789i128 << 40),
        i128::MAX / 3,
        i128::MIN / 5,
    ];
    for a in values {
        for b in values {
            let (x, y) = (I64F64::from_bits(a), I64F64::from_bits(b));
            assert_eq!(raw(a).checked_add(raw(b)).ok().map(|v| v.to_bits()), x.checked_add(y).map(|v| v.to_bits()));
            assert_eq!(raw(a).checked_sub(raw(b)).ok().map(|v| v.to_bits()), x.checked_sub(y).map(|v| v.to_bits()));
            assert_eq!(raw(a).checked_mul(raw(b)).ok().map(|v| v.to_bits()), x.checked_mul(y).map(|v| v.to_bits()));
            assert_eq!(raw(a).checked_div(raw(b)).ok().map(|v| v.to_bits()), x.checked_div(y).map(|v| v.to_bits()));
        }
        assert_eq!(raw(a).floor().to_bits(), I64F64::from_bits(a).floor().to_bits());
        assert_eq!(raw(a).checked_abs().ok().map(|v| v.to_bits()), I64F64::from_bits(a).checked_abs().map(|v| v.to_bits()));
        assert_eq!(raw(a).to_u64().ok(), I64F64::from_bits(a).checked_to_num::<u64>());
    }
}
