use amm_core::curve::deposit_amounts;
use amm_core::curve::swap;
use amm_core::curve::withdraw_amounts;
use amm_core::errors::AmmError;

#[test]
fn first_deposit_sets_the_price() {
    // An empty pool takes the caller's maxima verbatim; the requested share
    // count becomes the initial supply.
    assert_eq!(deposit_amounts(0, 0, 0, 1_000_000, 500, 2000), Ok((500, 2000)));
}

#[test]
fn deposit_is_proportional_and_rounds_up() {
    // 25 shares of a 50-share pool cost half of each reserve.
    assert_eq!(deposit_amounts(100, 400, 50, 25, 1000, 1000), Ok((50, 200)));
    // ceil(1 * 10 / 3) = 4: the depositor pays the rounded-up amount.
    assert_eq!(deposit_amounts(10, 10, 3, 1, 1000, 1000), Ok((4, 4)));
}

#[test]
fn deposit_rejects_drained_pool() {
    assert_eq!(
        deposit_amounts(0, 400, 50, 25, 1000, 1000),
        Err(AmmError::InsufficientLiquidity)
    );
    assert_eq!(
        deposit_amounts(100, 0, 50, 25, 1000, 1000),
        Err(AmmError::InsufficientLiquidity)
    );
}

#[test]
fn deposit_reports_overflow() {
    assert_eq!(
        deposit_amounts(u64::MAX, u64::MAX, 1, u64::MAX, u64::MAX, u64::MAX),
        Err(AmmError::MathOverflow)
    );
}

#[test]
fn withdraw_is_proportional_and_rounds_down() {
    assert_eq!(withdraw_amounts(1000, 2000, 100, 50), (500, 1000));
    // floor(1 * 10 / 3) = 3: the pool pays the rounded-down amount.
    assert_eq!(withdraw_amounts(10, 10, 3, 1), (3, 3));
    // Burning the whole supply drains both reserves exactly.
    assert_eq!(withdraw_amounts(1000, 2000, 100, 100), (1000, 2000));
}

#[test]
fn partial_withdraw_never_drains_a_reserve() {
    // Burning 99 of 100 shares against a one-unit reserve pays nothing out:
    // the last unit stays with the remaining shareholder.
    assert_eq!(withdraw_amounts(1, 1000, 100, 99), (0, 990));
}

#[test]
fn deposit_then_withdraw_never_profits() {
    // Deposit 7 shares into a 13-share pool, then burn the same 7 shares.
    let (dx, dy) = deposit_amounts(101, 203, 13, 7, u64::MAX, u64::MAX).unwrap();
    let (wx, wy) = withdraw_amounts(101 + dx, 203 + dy, 13 + 7, 7);
    assert!(wx <= dx);
    assert!(wy <= dy);
}

#[test]
fn swap_charges_the_fee_before_pricing() {
    // effective_in = floor(100 * 9970 / 10000) = 99,
    // amount_out = floor(1000 * 99 / 1099) = 90.
    assert_eq!(swap(1000, 1000, 30, 100, 90), Ok(90));
}

#[test]
fn swap_enforces_the_slippage_bound() {
    assert_eq!(swap(1000, 1000, 30, 100, 91), Err(AmmError::SlippageExceeded));
}

#[test]
fn swap_grows_the_reserve_product() {
    let out = swap(1000, 1000, 30, 100, 1).unwrap();
    let reserve_in_after: u64 = 1000 + 100;
    let reserve_out_after: u64 = 1000 - out;
    assert_eq!(reserve_in_after, 1100);
    assert_eq!(reserve_out_after, 910);
    assert!(
        (reserve_in_after as u128) * (reserve_out_after as u128) >= 1000u128 * 1000u128
    );
}

#[test]
fn swap_rejects_empty_reserves() {
    assert_eq!(swap(0, 1000, 30, 100, 1), Err(AmmError::InsufficientLiquidity));
    assert_eq!(swap(1000, 0, 30, 100, 1), Err(AmmError::InsufficientLiquidity));
}

#[test]
fn swap_with_zero_fee_keeps_the_full_input_effective() {
    // amount_out = floor(1000 * 100 / 1100) = 90.
    assert_eq!(swap(1000, 1000, 0, 100, 1), Ok(90));
}
