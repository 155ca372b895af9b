//! The constant-product curve engine: pure integer computation of deposit
//! amounts, withdrawal amounts and swap outputs.
//!
//! Rounding is asymmetric by design. Deposits round up, so a depositor never
//! receives more shares per unit deposited than an existing holder;
//! withdrawals round down, so the pool never pays out more than the burned
//! shares proportionally entitle; swap outputs round down, so the reserve
//! product never decreases across a trade.

use vstd::prelude::*;

verus! {

use crate::errors::AmmError;
use crate::math::ceil_div;
use crate::math::lemma_ceil_div_bounds;
use crate::math::lemma_floor_div_bounds;
use crate::math::lemma_floor_div_at_most;
use crate::math::mul_div_ceil;
use crate::math::mul_div_floor;
use vstd::arithmetic::mul::lemma_mul_is_commutative;
use vstd::arithmetic::mul::lemma_mul_inequality;
use vstd::arithmetic::div_mod::lemma_div_is_ordered;
use vstd::arithmetic::div_mod::lemma_div_multiples_vanish;

/// The fee denominator: fees are expressed in basis points.
pub const FEE_SCALE: u16 = 10000;

/// The share of the pool a deposit of `shares` must supply from a reserve,
/// rounded up.
pub open spec fn proportional_ceil(shares: int, reserve: int, supply: int) -> int
    recommends
        shares >= 0,
        reserve >= 0,
        supply > 0,
{
    ceil_div(shares * reserve, supply)
}

/// The share of a reserve a burn of `shares` releases, rounded down.
pub open spec fn proportional_floor(shares: int, reserve: int, supply: int) -> int
    recommends
        shares >= 0,
        reserve >= 0,
        supply > 0,
{
    shares * reserve / supply
}

/// The portion of a swap input that participates in pricing after the fee
/// is deducted, rounded down.
pub open spec fn effective_input(amount_in: int, fee_bps: int) -> int
    recommends
        amount_in >= 0,
        0 <= fee_bps < FEE_SCALE,
{
    amount_in * (FEE_SCALE - fee_bps) / FEE_SCALE as int
}

/// The swap output that keeps `reserve_in * reserve_out` invariant on the
/// fee-reduced input, rounded down.
pub open spec fn swap_output(reserve_in: int, reserve_out: int, fee_bps: int, amount_in: int) -> int
    recommends
        reserve_in > 0,
        reserve_out > 0,
        amount_in >= 0,
        0 <= fee_bps < FEE_SCALE,
{
    reserve_out * effective_input(amount_in, fee_bps) / (reserve_in + effective_input(
        amount_in,
        fee_bps,
    ))
}

/// How much of each asset a deposit of `requested_shares` must supply.
///
/// On the first deposit (`share_supply == 0`) the caller's maxima become the
/// exact amounts and the requested share count becomes the initial supply:
/// the first depositor sets the pool's price. Afterwards the amounts are
/// proportional to the current reserves, rounded up in the pool's favor.
pub fn deposit_amounts(
    reserve_x: u64,
    reserve_y: u64,
    share_supply: u64,
    requested_shares: u64,
    max_x: u64,
    max_y: u64,
) -> (r: Result<(u64, u64), AmmError>)
    requires
        requested_shares > 0,
    ensures
        share_supply == 0 ==> r == Ok::<(u64, u64), AmmError>((max_x, max_y)),
        share_supply > 0 && (reserve_x == 0 || reserve_y == 0) ==> r == Err::<
            (u64, u64),
            AmmError,
        >(AmmError::InsufficientLiquidity),
        share_supply > 0 && reserve_x > 0 && reserve_y > 0 ==> ({
            let ax = proportional_ceil(requested_shares as int, reserve_x as int, share_supply as int);
            let ay = proportional_ceil(requested_shares as int, reserve_y as int, share_supply as int);
            if ax <= u64::MAX as int && ay <= u64::MAX as int {
                r == Ok::<(u64, u64), AmmError>((ax as u64, ay as u64))
            } else {
                r == Err::<(u64, u64), AmmError>(AmmError::MathOverflow)
            }
        }),
        share_supply > 0 ==> (match r {
            Ok(v) => v.0 as int * share_supply as int >= requested_shares as int * reserve_x as int
                && v.1 as int * share_supply as int >= requested_shares as int * reserve_y as int,
            Err(_) => true,
        }),
{
    if share_supply == 0 {
        return Ok((max_x, max_y));
    }
    if reserve_x == 0 || reserve_y == 0 {
        return Err(AmmError::InsufficientLiquidity);
    }
    let amount_x = match mul_div_ceil(requested_shares, reserve_x, share_supply) {
        Ok(v) => v,
        Err(_) => {
            return Err(AmmError::MathOverflow);
        },
    };
    let amount_y = match mul_div_ceil(requested_shares, reserve_y, share_supply) {
        Ok(v) => v,
        Err(_) => {
            return Err(AmmError::MathOverflow);
        },
    };
    proof {
        assert(requested_shares as int * reserve_x as int >= 0) by (nonlinear_arith)
            requires
                requested_shares as int >= 0,
                reserve_x as int >= 0,
        ;
        assert(requested_shares as int * reserve_y as int >= 0) by (nonlinear_arith)
            requires
                requested_shares as int >= 0,
                reserve_y as int >= 0,
        ;
        lemma_ceil_div_bounds(requested_shares as int * reserve_x as int, share_supply as int);
        lemma_ceil_div_bounds(requested_shares as int * reserve_y as int, share_supply as int);
        lemma_mul_is_commutative(amount_x as int, share_supply as int);
        lemma_mul_is_commutative(amount_y as int, share_supply as int);
    }
    Ok((amount_x, amount_y))
}

/// How much of each asset a burn of `burn_shares` releases: the proportional
/// slice of each reserve, rounded down. Under the stated precondition no
/// arithmetic failure is possible, so the amounts are returned directly.
pub fn withdraw_amounts(
    reserve_x: u64,
    reserve_y: u64,
    share_supply: u64,
    burn_shares: u64,
) -> (r: (u64, u64))
    requires
        0 < burn_shares,
        burn_shares <= share_supply,
    ensures
        r.0 as int == proportional_floor(burn_shares as int, reserve_x as int, share_supply as int),
        r.1 as int == proportional_floor(burn_shares as int, reserve_y as int, share_supply as int),
        r.0 <= reserve_x,
        r.1 <= reserve_y,
{
    proof {
        lemma_withdraw_within_reserve(reserve_x as int, share_supply as int, burn_shares as int);
        lemma_withdraw_within_reserve(reserve_y as int, share_supply as int, burn_shares as int);
    }
    let amount_x = match mul_div_floor(burn_shares, reserve_x, share_supply) {
        Ok(v) => v,
        Err(_) => {
            proof {
                assert(false);
            }
            0
        },
    };
    let amount_y = match mul_div_floor(burn_shares, reserve_y, share_supply) {
        Ok(v) => v,
        Err(_) => {
            proof {
                assert(false);
            }
            0
        },
    };
    (amount_x, amount_y)
}

/// A proportional floor payout never exceeds the reserve it is drawn from.
proof fn lemma_withdraw_within_reserve(reserve: int, supply: int, shares: int)
    requires
        reserve >= 0,
        supply > 0,
        0 < shares <= supply,
    ensures
        proportional_floor(shares, reserve, supply) <= reserve,
        proportional_floor(shares, reserve, supply) >= 0,
{
    lemma_mul_inequality(shares, supply, reserve);
    lemma_div_is_ordered(shares * reserve, supply * reserve, supply);
    lemma_div_multiples_vanish(reserve, supply);
    lemma_floor_div_bounds(shares * reserve, supply);
    assert(shares * reserve >= 0) by (nonlinear_arith)
        requires
            shares >= 0,
            reserve >= 0,
    ;
}

/// The output a swap of `amount_in` is owed, after slippage control.
///
/// The fee is deducted from the input, the output keeps the reserve product
/// invariant on the fee-reduced input, and the caller's `min_amount_out`
/// bound is enforced before any balance would move. On success the full
/// input enters the pool while only the fee-reduced part was priced, so the
/// reserve product never decreases (the final `ensures` clause).
pub fn swap(
    reserve_in: u64,
    reserve_out: u64,
    fee_bps: u16,
    amount_in: u64,
    min_amount_out: u64,
) -> (r: Result<u64, AmmError>)
    requires
        amount_in > 0,
        fee_bps < FEE_SCALE,
    ensures
        reserve_in == 0 || reserve_out == 0 ==> r == Err::<u64, AmmError>(
            AmmError::InsufficientLiquidity,
        ),
        reserve_in > 0 && reserve_out > 0 ==> ({
            let out = swap_output(reserve_in as int, reserve_out as int, fee_bps as int, amount_in as int);
            if out >= min_amount_out as int {
                r == Ok::<u64, AmmError>(out as u64)
            } else {
                r == Err::<u64, AmmError>(AmmError::SlippageExceeded)
            }
        }),
        match r {
            Ok(out) => min_amount_out <= out <= reserve_out && (reserve_in as int
                + amount_in as int) * (reserve_out as int - out as int) >= reserve_in as int
                * reserve_out as int,
            Err(_) => true,
        },
{
    if reserve_in == 0 || reserve_out == 0 {
        return Err(AmmError::InsufficientLiquidity);
    }
    let fee_factor: u64 = (FEE_SCALE - fee_bps) as u64;
    proof {
        lemma_effective_input_at_most(amount_in as int, fee_bps as int);
    }
    let effective = match mul_div_floor(amount_in, fee_factor, FEE_SCALE as u64) {
        Ok(v) => v,
        Err(_) => {
            proof {
                assert(false);
            }
            0
        },
    };
    proof {
        assert(reserve_out as int * effective as int <= u64::MAX as int * u64::MAX as int)
            by (nonlinear_arith)
            requires
                0 <= reserve_out as int <= u64::MAX as int,
                0 <= effective as int <= u64::MAX as int,
        ;
    }
    let numerator: u128 = (reserve_out as u128) * (effective as u128);
    let denominator: u128 = (reserve_in as u128) + (effective as u128);
    let out_wide: u128 = numerator / denominator;
    proof {
        lemma_swap_output_within_reserve(
            reserve_in as int,
            reserve_out as int,
            effective as int,
        );
    }
    let out: u64 = out_wide as u64;
    if out < min_amount_out {
        return Err(AmmError::SlippageExceeded);
    }
    proof {
        lemma_swap_preserves_product(
            reserve_in as int,
            reserve_out as int,
            effective as int,
            amount_in as int,
            out as int,
        );
    }
    Ok(out)
}

/// The fee-reduced input never exceeds the input itself.
proof fn lemma_effective_input_at_most(amount_in: int, fee_bps: int)
    requires
        amount_in >= 0,
        0 <= fee_bps < FEE_SCALE,
    ensures
        0 <= effective_input(amount_in, fee_bps) <= amount_in,
{
    let scale = FEE_SCALE as int;
    assert(amount_in * (scale - fee_bps) <= scale * amount_in) by (nonlinear_arith)
        requires
            amount_in >= 0,
            0 <= fee_bps < scale,
    ;
    assert(amount_in * (scale - fee_bps) >= 0) by (nonlinear_arith)
        requires
            amount_in >= 0,
            fee_bps < scale,
    ;
    lemma_div_is_ordered(amount_in * (scale - fee_bps), scale * amount_in, scale);
    lemma_div_multiples_vanish(amount_in, scale);
    lemma_floor_div_bounds(amount_in * (scale - fee_bps), scale);
}

/// The constant-product output never exceeds the outgoing reserve.
proof fn lemma_swap_output_within_reserve(reserve_in: int, reserve_out: int, effective: int)
    requires
        reserve_in > 0,
        reserve_out > 0,
        effective >= 0,
    ensures
        0 <= reserve_out * effective / (reserve_in + effective) <= reserve_out,
{
    assert(reserve_out * effective <= (reserve_in + effective) * reserve_out) by (nonlinear_arith)
        requires
            reserve_in > 0,
            reserve_out > 0,
            effective >= 0,
    ;
    assert(reserve_out * effective >= 0) by (nonlinear_arith)
        requires
            reserve_out >= 0,
            effective >= 0,
    ;
    lemma_div_is_ordered(
        reserve_out * effective,
        (reserve_in + effective) * reserve_out,
        reserve_in + effective,
    );
    lemma_div_multiples_vanish(reserve_out, reserve_in + effective);
    lemma_floor_div_bounds(reserve_out * effective, reserve_in + effective);
}

/// After a swap the reserve product has not decreased: the full input enters
/// the pool while the output was priced on the fee-reduced input only.
proof fn lemma_swap_preserves_product(
    reserve_in: int,
    reserve_out: int,
    effective: int,
    amount_in: int,
    out: int,
)
    requires
        reserve_in > 0,
        reserve_out > 0,
        0 <= effective <= amount_in,
        out == reserve_out * effective / (reserve_in + effective),
        0 <= out <= reserve_out,
    ensures
        (reserve_in + amount_in) * (reserve_out - out) >= reserve_in * reserve_out,
{
    assert(reserve_out * effective >= 0) by (nonlinear_arith)
        requires
            reserve_out >= 0,
            effective >= 0,
    ;
    lemma_floor_div_bounds(reserve_out * effective, reserve_in + effective);
    assert((reserve_in + effective) * out <= reserve_out * effective);
    assert((reserve_in + effective) * (reserve_out - out) >= reserve_in * reserve_out)
        by (nonlinear_arith)
        requires
            (reserve_in + effective) * out <= reserve_out * effective,
            reserve_in > 0,
            effective >= 0,
            0 <= out <= reserve_out,
    ;
    assert((reserve_in + amount_in) * (reserve_out - out) >= (reserve_in + effective) * (reserve_out
        - out)) by (nonlinear_arith)
        requires
            effective <= amount_in,
            out <= reserve_out,
    ;
}

/// A withdrawal that burns fewer shares than are outstanding leaves a
/// positive reserve behind: a pool with shares outstanding never has an
/// empty side. (A burn of the whole supply may drain the pool, but then no
/// shares remain outstanding.)
pub proof fn lemma_withdraw_keeps_reserves_positive(reserve: int, supply: int, burn: int)
    requires
        reserve > 0,
        supply > 0,
        0 < burn < supply,
    ensures
        0 < reserve - proportional_floor(burn, reserve, supply) <= reserve,
{
    assert(burn * reserve >= 0) by (nonlinear_arith)
        requires
            burn >= 0,
            reserve >= 0,
    ;
    assert(reserve * supply > burn * reserve) by (nonlinear_arith)
        requires
            reserve > 0,
            burn < supply,
    ;
    lemma_floor_div_at_most(burn * reserve, supply, reserve - 1);
    lemma_floor_div_bounds(burn * reserve, supply);
}

/// A swap never drains the outgoing reserve: the rounded-down output is
/// strictly below it, so both sides stay positive afterwards.
pub proof fn lemma_swap_keeps_reserves_positive(
    reserve_in: int,
    reserve_out: int,
    fee_bps: int,
    amount_in: int,
)
    requires
        reserve_in > 0,
        reserve_out > 0,
        amount_in >= 0,
        0 <= fee_bps < FEE_SCALE,
    ensures
        swap_output(reserve_in, reserve_out, fee_bps, amount_in) < reserve_out,
{
    let effective = effective_input(amount_in, fee_bps);
    lemma_effective_input_at_most(amount_in, fee_bps);
    assert(reserve_out * effective >= 0) by (nonlinear_arith)
        requires
            reserve_out >= 0,
            effective >= 0,
    ;
    assert(reserve_out * (reserve_in + effective) > reserve_out * effective) by (nonlinear_arith)
        requires
            reserve_in > 0,
            reserve_out > 0,
            effective >= 0,
    ;
    lemma_floor_div_at_most(reserve_out * effective, reserve_in + effective, reserve_out - 1);
}

/// Depositing `shares` at proportional rounded-up cost and immediately
/// withdrawing the same `shares` from the grown pool returns at most the
/// amounts that were deposited: the round trip never profits, on either
/// asset.
pub proof fn lemma_deposit_withdraw_round_trip(
    reserve_x: int,
    reserve_y: int,
    share_supply: int,
    shares: int,
)
    requires
        reserve_x > 0,
        reserve_y > 0,
        share_supply > 0,
        shares > 0,
    ensures
        proportional_floor(
            shares,
            reserve_x + proportional_ceil(shares, reserve_x, share_supply),
            share_supply + shares,
        ) <= proportional_ceil(shares, reserve_x, share_supply),
        proportional_floor(
            shares,
            reserve_y + proportional_ceil(shares, reserve_y, share_supply),
            share_supply + shares,
        ) <= proportional_ceil(shares, reserve_y, share_supply),
{
    lemma_round_trip_coordinate(reserve_x, share_supply, shares);
    lemma_round_trip_coordinate(reserve_y, share_supply, shares);
}

/// The round-trip bound on a single reserve.
proof fn lemma_round_trip_coordinate(reserve: int, supply: int, shares: int)
    requires
        reserve > 0,
        supply > 0,
        shares > 0,
    ensures
        proportional_floor(
            shares,
            reserve + proportional_ceil(shares, reserve, supply),
            supply + shares,
        ) <= proportional_ceil(shares, reserve, supply),
{
    let deposited = proportional_ceil(shares, reserve, supply);
    assert(shares * reserve >= 0) by (nonlinear_arith)
        requires
            shares >= 0,
            reserve >= 0,
    ;
    lemma_ceil_div_bounds(shares * reserve, supply);
    assert(shares * (reserve + deposited) >= 0) by (nonlinear_arith)
        requires
            shares >= 0,
            reserve >= 0,
            deposited >= 0,
    ;
    assert((deposited + 1) * (supply + shares) > shares * (reserve + deposited))
        by (nonlinear_arith)
        requires
            supply * deposited >= shares * reserve,
            supply > 0,
            shares > 0,
            deposited >= 0,
    ;
    lemma_floor_div_at_most(shares * (reserve + deposited), supply + shares, deposited);
}

} // verus!
