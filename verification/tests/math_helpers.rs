use amm_core::errors::AmmError;
use amm_core::math::isqrt;
use amm_core::math::mul_div_ceil;
use amm_core::math::mul_div_floor;

#[test]
fn mul_div_floor_rounds_down() {
    assert_eq!(mul_div_floor(7, 3, 2), Ok(10));
    assert_eq!(mul_div_floor(6, 2, 3), Ok(4));
    assert_eq!(mul_div_floor(1, 1, 2), Ok(0));
}

#[test]
fn mul_div_ceil_rounds_up() {
    assert_eq!(mul_div_ceil(7, 3, 2), Ok(11));
    assert_eq!(mul_div_ceil(6, 2, 3), Ok(4));
    assert_eq!(mul_div_ceil(1, 1, 2), Ok(1));
}

#[test]
fn division_by_zero_is_reported() {
    assert_eq!(mul_div_floor(5, 5, 0), Err(AmmError::DivideByZero));
    assert_eq!(mul_div_ceil(5, 5, 0), Err(AmmError::DivideByZero));
}

#[test]
fn overflow_is_reported_not_truncated() {
    assert_eq!(mul_div_floor(u64::MAX, u64::MAX, 1), Err(AmmError::MathOverflow));
    assert_eq!(mul_div_ceil(u64::MAX, 2, 1), Err(AmmError::MathOverflow));
    // The largest result that still fits is returned exactly.
    assert_eq!(mul_div_floor(u64::MAX, 10, 10), Ok(u64::MAX));
}

#[test]
fn isqrt_is_exact_on_perfect_squares() {
    assert_eq!(isqrt(0), 0);
    assert_eq!(isqrt(1), 1);
    assert_eq!(isqrt(49), 7);
    assert_eq!(isqrt(1_000_000_000_000_000_000), 1_000_000_000);
    assert_eq!(isqrt(4294967295 * 4294967295), 4294967295);
}

#[test]
fn isqrt_rounds_down_between_squares() {
    assert_eq!(isqrt(2), 1);
    assert_eq!(isqrt(48), 6);
    assert_eq!(isqrt(50), 7);
    assert_eq!(isqrt(u64::MAX), 4294967295);
}
