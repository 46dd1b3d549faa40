use niffyinsure::error::Error;
use niffyinsure::premium_pure::{
    checked_add, checked_div, checked_mul, checked_mul_ratio, checked_sub, round_to_multiple,
    safety_multiplier, Rounding, SCALE,
};

#[test]
fn checked_mul_ratio_floor_truncates() {
    // 10 * 3 / 4 = 7.5 → floor → 7
    assert_eq!(checked_mul_ratio(10, 3, 4, Rounding::Floor).unwrap(), 7);
}

#[test]
fn checked_mul_ratio_ceil_rounds_up() {
    // 10 * 3 / 4 = 7.5 → ceil → 8
    assert_eq!(checked_mul_ratio(10, 3, 4, Rounding::Ceil).unwrap(), 8);
}

#[test]
fn checked_mul_ratio_exact_no_rounding() {
    // 10 * 2 / 4 = 5.0 → both modes → 5
    assert_eq!(checked_mul_ratio(10, 2, 4, Rounding::Floor).unwrap(), 5);
    assert_eq!(checked_mul_ratio(10, 2, 4, Rounding::Ceil).unwrap(), 5);
}

#[test]
fn checked_mul_ratio_rejects_negative() {
    assert_eq!(
        checked_mul_ratio(-1, 1, 1, Rounding::Floor),
        Err(Error::NegativePremiumNotSupported)
    );
    assert_eq!(
        checked_mul_ratio(1, -1, 1, Rounding::Floor),
        Err(Error::NegativePremiumNotSupported)
    );
    assert_eq!(
        checked_mul_ratio(1, 1, -1, Rounding::Floor),
        Err(Error::NegativePremiumNotSupported)
    );
}

#[test]
fn checked_div_by_zero() {
    assert_eq!(checked_div(1, 0), Err(Error::DivideByZero));
}

#[test]
fn round_to_multiple_floor() {
    assert_eq!(round_to_multiple(7, 5, Rounding::Floor).unwrap(), 5);
    assert_eq!(round_to_multiple(10, 5, Rounding::Floor).unwrap(), 10);
}

#[test]
fn round_to_multiple_ceil() {
    assert_eq!(round_to_multiple(7, 5, Rounding::Ceil).unwrap(), 10);
    assert_eq!(round_to_multiple(10, 5, Rounding::Ceil).unwrap(), 10);
}

#[test]
fn round_to_multiple_zero_multiple_errors() {
    assert_eq!(
        round_to_multiple(5, 0, Rounding::Floor),
        Err(Error::DivideByZero)
    );
}

#[test]
fn safety_multiplier_zero_score_no_discount() {
    // score=0 → earned=0 → multiplier = SCALE
    assert_eq!(safety_multiplier(0, 2_000).unwrap(), SCALE);
}

#[test]
fn safety_multiplier_max_score_full_discount() {
    // score=100, max_discount=2_000 → earned=2_000 → multiplier = 8_000
    assert_eq!(safety_multiplier(100, 2_000).unwrap(), 8_000);
}

#[test]
fn safety_multiplier_partial_score() {
    // score=50, max_discount=2_000 → earned=1_000 → multiplier = 9_000
    assert_eq!(safety_multiplier(50, 2_000).unwrap(), 9_000);
}

// ── Further cases ────────────────────────────────────────────────────────────

#[test]
fn checked_primitives_report_overflow() {
    assert_eq!(checked_mul(i128::MAX, 2), Err(Error::Overflow));
    assert_eq!(checked_add(i128::MAX, 1), Err(Error::Overflow));
    assert_eq!(checked_sub(i128::MIN, 1), Err(Error::Overflow));
    assert_eq!(checked_mul(-3, 4), Ok(-12));
    assert_eq!(checked_add(-3, 4), Ok(1));
    assert_eq!(checked_sub(-3, 4), Ok(-7));
}

#[test]
fn checked_div_truncates_toward_zero() {
    assert_eq!(checked_div(7, 2), Ok(3));
    assert_eq!(checked_div(-7, 2), Ok(-3));
    assert_eq!(checked_div(7, -2), Ok(-3));
    assert_eq!(checked_div(-7, -2), Ok(3));
    assert_eq!(checked_div(i128::MIN, 1), Ok(i128::MIN));
}

#[test]
fn checked_mul_ratio_error_order() {
    // Negative operands are reported before overflow and before a zero denominator.
    assert_eq!(
        checked_mul_ratio(-1, i128::MAX, 0, Rounding::Ceil),
        Err(Error::NegativePremiumNotSupported)
    );
    assert_eq!(
        checked_mul_ratio(i128::MAX, 2, 0, Rounding::Ceil),
        Err(Error::Overflow)
    );
    assert_eq!(
        checked_mul_ratio(3, 2, 0, Rounding::Ceil),
        Err(Error::DivideByZero)
    );
}

#[test]
fn checked_mul_ratio_ceil_at_the_top_of_the_range() {
    // The rounded-up quotient never overflows, even for the largest product.
    assert_eq!(
        checked_mul_ratio(i128::MAX, 1, 2, Rounding::Ceil),
        Ok(i128::MAX / 2 + 1)
    );
    assert_eq!(checked_mul_ratio(i128::MAX, 1, 1, Rounding::Ceil), Ok(i128::MAX));
}

#[test]
fn round_to_multiple_rejects_negatives_and_overflow() {
    assert_eq!(
        round_to_multiple(-1, 5, Rounding::Floor),
        Err(Error::NegativePremiumNotSupported)
    );
    assert_eq!(
        round_to_multiple(5, -5, Rounding::Floor),
        Err(Error::NegativePremiumNotSupported)
    );
    assert_eq!(
        round_to_multiple(i128::MAX, 2, Rounding::Ceil),
        Err(Error::Overflow)
    );
    assert_eq!(round_to_multiple(0, 5, Rounding::Ceil), Ok(0));
}

#[test]
fn safety_multiplier_errors() {
    assert_eq!(
        safety_multiplier(10, -1),
        Err(Error::NegativePremiumNotSupported)
    );
    assert_eq!(safety_multiplier(u32::MAX, i128::MAX), Err(Error::Overflow));
    // Scores above 100 earn more than the maximum discount; the factor may go negative.
    assert_eq!(safety_multiplier(1_000, 2_000), Ok(SCALE - 20_000));
}
