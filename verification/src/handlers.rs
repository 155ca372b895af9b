//! Operation handlers: the validation and orchestration layer over the
//! curve engine.
//!
//! Each handler takes the pool record and the ledger's current balances as
//! plain arguments, validates every precondition, and returns the exact
//! token movements the ledger must perform. Every rejection happens before
//! any movement is returned, so a failing operation leaves all state
//! untouched; the caller applies the returned amounts atomically.
//!
//! The spec predicate beside each handler states its complete
//! input-to-result relation; the handler's `ensures` is that predicate, and
//! the `apply` dispatch in [`crate::dispatch`] reuses the same predicates.

use vstd::prelude::*;

verus! {

use crate::errors::AmmError;
use crate::state::Config;
use crate::curve;
use crate::curve::FEE_SCALE;
use crate::curve::proportional_ceil;
use crate::curve::proportional_floor;
use crate::curve::swap_output;

/// The token movements a successful deposit requires: transfer `amount_x`
/// and `amount_y` into the vaults, mint `shares_minted` pool shares.
#[derive(Clone, Copy, Debug, PartialEq, Eq, Structural)]
pub struct DepositOutcome {
    pub amount_x: u64,
    pub amount_y: u64,
    pub shares_minted: u64,
}

/// The token movements a successful withdrawal requires: burn
/// `shares_burned` pool shares, transfer `amount_x` and `amount_y` out of
/// the vaults.
#[derive(Clone, Copy, Debug, PartialEq, Eq, Structural)]
pub struct WithdrawOutcome {
    pub amount_x: u64,
    pub amount_y: u64,
    pub shares_burned: u64,
}

/// The token movements a successful swap requires: transfer `amount_in` of
/// `mint_in` into its vault, transfer `amount_out` of `mint_out` back out.
#[derive(Clone, Copy, Debug, PartialEq, Eq, Structural)]
pub struct SwapOutcome {
    pub mint_in: u64,
    pub mint_out: u64,
    pub amount_in: u64,
    pub amount_out: u64,
}

/// What `initialize` returns: the record for a fee below 100%, the typed
/// rejection otherwise.
pub open spec fn initialize_spec(
    seed: u64,
    fee: u16,
    authority: u64,
    mint_x: u64,
    mint_y: u64,
    r: Result<Config, AmmError>,
) -> bool {
    &&& fee >= FEE_SCALE ==> r == Err::<Config, AmmError>(AmmError::InvalidFeeSet)
    &&& fee < FEE_SCALE ==> r == Ok::<Config, AmmError>(
        (Config { seed, authority, mint_x, mint_y, fee, locked: false }),
    )
}

/// What `deposit` returns, for every input: the lock gate, the zero-amount
/// gate, the genesis path, the degenerate-reserve rejection, the rounded-up
/// proportional pricing, and the slippage gate, in that order.
pub open spec fn deposit_spec(
    cfg: Config,
    reserve_x: u64,
    reserve_y: u64,
    share_supply: u64,
    amount: u64,
    max_x: u64,
    max_y: u64,
    r: Result<DepositOutcome, AmmError>,
) -> bool {
    &&& cfg.locked ==> r == Err::<DepositOutcome, AmmError>(AmmError::PoolLocked)
    &&& !cfg.locked && (amount == 0 || max_x == 0 || max_y == 0) ==> r == Err::<
        DepositOutcome,
        AmmError,
    >(AmmError::ZeroBalance)
    &&& !cfg.locked && amount > 0 && max_x > 0 && max_y > 0 ==> ({
        if share_supply == 0 {
            r == Ok::<DepositOutcome, AmmError>(
                (DepositOutcome { amount_x: max_x, amount_y: max_y, shares_minted: amount }),
            )
        } else if reserve_x == 0 || reserve_y == 0 {
            r == Err::<DepositOutcome, AmmError>(AmmError::InsufficientLiquidity)
        } else {
            let ax = proportional_ceil(amount as int, reserve_x as int, share_supply as int);
            let ay = proportional_ceil(amount as int, reserve_y as int, share_supply as int);
            if ax > u64::MAX as int || ay > u64::MAX as int {
                r == Err::<DepositOutcome, AmmError>(AmmError::MathOverflow)
            } else if ax <= max_x as int && ay <= max_y as int {
                r == Ok::<DepositOutcome, AmmError>(
                    (DepositOutcome {
                        amount_x: ax as u64,
                        amount_y: ay as u64,
                        shares_minted: amount,
                    }),
                )
            } else {
                r == Err::<DepositOutcome, AmmError>(AmmError::SlippageExceeded)
            }
        }
    })
    &&& r matches Ok(o) ==> o.shares_minted == amount && o.amount_x <= max_x && o.amount_y
        <= max_y
}

/// What `withdraw` returns, for every input: the zero-burn gate, the
/// excess-burn rejection, the rounded-down proportional payout, and the
/// slippage gate. The lock flag is deliberately not consulted.
pub open spec fn withdraw_spec(
    reserve_x: u64,
    reserve_y: u64,
    share_supply: u64,
    amount: u64,
    min_x: u64,
    min_y: u64,
    r: Result<WithdrawOutcome, AmmError>,
) -> bool {
    &&& amount == 0 ==> r == Err::<WithdrawOutcome, AmmError>(AmmError::ZeroBalance)
    &&& amount > share_supply ==> r == Err::<WithdrawOutcome, AmmError>(
        AmmError::InsufficientLiquidity,
    )
    &&& 0 < amount <= share_supply ==> ({
        let wx = proportional_floor(amount as int, reserve_x as int, share_supply as int);
        let wy = proportional_floor(amount as int, reserve_y as int, share_supply as int);
        if wx >= min_x as int && wy >= min_y as int {
            r == Ok::<WithdrawOutcome, AmmError>(
                (WithdrawOutcome {
                    amount_x: wx as u64,
                    amount_y: wy as u64,
                    shares_burned: amount,
                }),
            )
        } else {
            r == Err::<WithdrawOutcome, AmmError>(AmmError::SlippageExceeded)
        }
    })
    &&& r matches Ok(o) ==> o.shares_burned == amount && min_x <= o.amount_x <= reserve_x
        && min_y <= o.amount_y <= reserve_y
}

/// What `swap` returns, for every input: the lock gate, the zero-amount
/// gate, the input-asset check, the degenerate-reserve rejection, the
/// constant-product pricing and the slippage gate. The final conjunct is
/// the invariant-growth guarantee: on success the product of the two vault
/// balances never decreases.
pub open spec fn swap_spec(
    cfg: Config,
    vault_x: u64,
    vault_y: u64,
    mint_deposit: u64,
    amount_in: u64,
    min_amount_out: u64,
    r: Result<SwapOutcome, AmmError>,
) -> bool {
    &&& cfg.locked ==> r == Err::<SwapOutcome, AmmError>(AmmError::PoolLocked)
    &&& !cfg.locked && (amount_in == 0 || min_amount_out == 0) ==> r == Err::<
        SwapOutcome,
        AmmError,
    >(AmmError::ZeroBalance)
    &&& !cfg.locked && amount_in > 0 && min_amount_out > 0 && mint_deposit != cfg.mint_x
        && mint_deposit != cfg.mint_y ==> r == Err::<SwapOutcome, AmmError>(
        AmmError::InvalidInputMint,
    )
    &&& !cfg.locked && amount_in > 0 && min_amount_out > 0 && (mint_deposit == cfg.mint_x
        || mint_deposit == cfg.mint_y) ==> ({
        let reserve_in = if mint_deposit == cfg.mint_x { vault_x as int } else { vault_y as int };
        let reserve_out = if mint_deposit == cfg.mint_x { vault_y as int } else { vault_x as int };
        let mint_out = if mint_deposit == cfg.mint_x { cfg.mint_y } else { cfg.mint_x };
        if reserve_in == 0 || reserve_out == 0 {
            r == Err::<SwapOutcome, AmmError>(AmmError::InsufficientLiquidity)
        } else {
            let out = swap_output(reserve_in, reserve_out, cfg.fee as int, amount_in as int);
            if out >= min_amount_out as int {
                r == Ok::<SwapOutcome, AmmError>(
                    (SwapOutcome {
                        mint_in: mint_deposit,
                        mint_out,
                        amount_in,
                        amount_out: out as u64,
                    }),
                )
            } else {
                r == Err::<SwapOutcome, AmmError>(AmmError::SlippageExceeded)
            }
        }
    })
    &&& r matches Ok(o) ==> ({
        let reserve_in = if o.mint_in == cfg.mint_x { vault_x as int } else { vault_y as int };
        let reserve_out = if o.mint_in == cfg.mint_x { vault_y as int } else { vault_x as int };
        &&& o.amount_in == amount_in
        &&& o.mint_in == mint_deposit
        &&& min_amount_out <= o.amount_out <= reserve_out
        &&& (reserve_in + o.amount_in) * (reserve_out - o.amount_out) >= reserve_in * reserve_out
    })
}

/// Creates the pool record. The fee must lie strictly below 100%; the
/// record starts unlocked with the given authority.
pub fn initialize(seed: u64, fee: u16, authority: u64, mint_x: u64, mint_y: u64) -> (r: Result<
    Config,
    AmmError,
>)
    requires
        mint_x != mint_y,
    ensures
        initialize_spec(seed, fee, authority, mint_x, mint_y, r),
        r matches Ok(c) ==> c.wf() && !c.locked,
{
    if fee >= FEE_SCALE {
        return Err(AmmError::InvalidFeeSet);
    }
    Ok(Config { seed, authority, mint_x, mint_y, fee, locked: false })
}

/// Validates and prices a deposit of `amount` requested shares against the
/// current balances, bounded by the caller's maxima.
///
/// A locked pool rejects the deposit outright; zero-valued arguments are
/// rejected before the curve engine runs; a priced amount above either
/// maximum is rejected as slippage. On success the depositor owes exactly
/// the returned amounts and is minted exactly `amount` shares.
pub fn deposit(
    cfg: &Config,
    reserve_x: u64,
    reserve_y: u64,
    share_supply: u64,
    amount: u64,
    max_x: u64,
    max_y: u64,
) -> (r: Result<DepositOutcome, AmmError>)
    ensures
        deposit_spec(*cfg, reserve_x, reserve_y, share_supply, amount, max_x, max_y, r),
{
    if cfg.locked {
        return Err(AmmError::PoolLocked);
    }
    if amount == 0 || max_x == 0 || max_y == 0 {
        return Err(AmmError::ZeroBalance);
    }
    let amounts = match curve::deposit_amounts(
        reserve_x,
        reserve_y,
        share_supply,
        amount,
        max_x,
        max_y,
    ) {
        Ok(v) => v,
        Err(e) => {
            return Err(e);
        },
    };
    let (x, y) = amounts;
    if x <= max_x && y <= max_y {
        Ok(DepositOutcome { amount_x: x, amount_y: y, shares_minted: amount })
    } else {
        Err(AmmError::SlippageExceeded)
    }
}

/// Validates and prices a withdrawal that burns `amount` shares, bounded
/// below by the caller's minima.
///
/// Withdrawal stays available while the pool is locked, so it never reads
/// the pool record at all: the lock halts new exposure, it does not trap
/// existing holders. A zero burn is rejected; a
/// burn above the outstanding supply is rejected; a payout below either
/// minimum is rejected as slippage. On success the pool pays out exactly
/// the proportional rounded-down amounts.
pub fn withdraw(
    reserve_x: u64,
    reserve_y: u64,
    share_supply: u64,
    amount: u64,
    min_x: u64,
    min_y: u64,
) -> (r: Result<WithdrawOutcome, AmmError>)
    ensures
        withdraw_spec(reserve_x, reserve_y, share_supply, amount, min_x, min_y, r),
{
    if amount == 0 {
        return Err(AmmError::ZeroBalance);
    }
    if amount > share_supply {
        return Err(AmmError::InsufficientLiquidity);
    }
    let amounts = curve::withdraw_amounts(reserve_x, reserve_y, share_supply, amount);
    let (x, y) = amounts;
    if x >= min_x && y >= min_y {
        Ok(WithdrawOutcome { amount_x: x, amount_y: y, shares_burned: amount })
    } else {
        Err(AmmError::SlippageExceeded)
    }
}

/// Validates and prices a swap of `amount_in` of the asset `mint_deposit`
/// against the current vault balances.
///
/// A locked pool rejects the swap outright; zero-valued arguments are
/// rejected; an input asset matching neither pool asset is rejected; an
/// empty reserve on either side is rejected; an output below the caller's
/// minimum is rejected as slippage. On success the full input enters the
/// incoming vault and the output leaves the outgoing vault, and the product
/// of the two vault balances never decreases.
pub fn swap(
    cfg: &Config,
    vault_x: u64,
    vault_y: u64,
    mint_deposit: u64,
    amount_in: u64,
    min_amount_out: u64,
) -> (r: Result<SwapOutcome, AmmError>)
    requires
        cfg.wf(),
    ensures
        swap_spec(*cfg, vault_x, vault_y, mint_deposit, amount_in, min_amount_out, r),
{
    if cfg.locked {
        return Err(AmmError::PoolLocked);
    }
    if amount_in == 0 || min_amount_out == 0 {
        return Err(AmmError::ZeroBalance);
    }
    let (reserve_in, reserve_out, mint_out) = if mint_deposit == cfg.mint_x {
        (vault_x, vault_y, cfg.mint_y)
    } else if mint_deposit == cfg.mint_y {
        (vault_y, vault_x, cfg.mint_x)
    } else {
        return Err(AmmError::InvalidInputMint);
    };
    let out = match curve::swap(reserve_in, reserve_out, cfg.fee, amount_in, min_amount_out) {
        Ok(v) => v,
        Err(e) => {
            return Err(e);
        },
    };
    Ok(SwapOutcome { mint_in: mint_deposit, mint_out, amount_in, amount_out: out })
}

} // verus!
