//! The command surface as one dispatch: every caller-facing operation is a
//! variant of [`Operation`], and [`apply`] drives a pool slot through the
//! lifecycle `Uninitialized -> Active <-> Locked`.
//!
//! Only `Initialize`, `Lock` and `Unlock` mutate the record; `Deposit`,
//! `Withdraw` and `Swap` leave it untouched and only report the token
//! movements the ledger must perform. Account resolution and signer
//! verification have already happened by the time `apply` runs: `caller` is
//! the verified signer, and the slot matches the operation (a record exists
//! exactly when the operation is not `Initialize`).

use vstd::prelude::*;

verus! {

use crate::errors::AmmError;
use crate::state::Config;
use crate::handlers;
use crate::handlers::DepositOutcome;
use crate::handlers::SwapOutcome;
use crate::handlers::WithdrawOutcome;
use crate::handlers::deposit_spec;
use crate::handlers::initialize_spec;
use crate::handlers::swap_spec;
use crate::handlers::withdraw_spec;

/// A caller-facing operation with its explicit numeric arguments.
#[derive(Clone, Copy, Debug, PartialEq, Eq, Structural)]
pub enum Operation {
    /// Create the pool record; the caller becomes its authority.
    Initialize { seed: u64, fee: u16, mint_x: u64, mint_y: u64 },
    /// Add liquidity for `amount` new shares, within the caller's maxima.
    Deposit { amount: u64, max_x: u64, max_y: u64 },
    /// Burn `amount` shares, demanding at least the caller's minima.
    Withdraw { amount: u64, min_x: u64, min_y: u64 },
    /// Trade `amount_in` of `mint_in`, demanding at least `min_amount_out`.
    Swap { mint_in: u64, amount_in: u64, min_amount_out: u64 },
    /// Halt deposits and swaps; authority only.
    Lock,
    /// Resume deposits and swaps; authority only.
    Unlock,
}

/// The balances the external ledger reports for the pool, read fresh for
/// every operation: they are never cached in the record.
#[derive(Clone, Copy, Debug, PartialEq, Eq, Structural)]
pub struct LedgerView {
    pub reserve_x: u64,
    pub reserve_y: u64,
    pub share_supply: u64,
}

/// The instructions a successful operation hands back to its caller.
#[derive(Clone, Copy, Debug, PartialEq, Eq, Structural)]
pub enum Effect {
    /// The record was created; persist it.
    Created,
    /// Perform the deposit movements.
    Deposited(DepositOutcome),
    /// Perform the withdrawal movements.
    Withdrawn(WithdrawOutcome),
    /// Perform the swap movements.
    Swapped(SwapOutcome),
    /// The record is now locked.
    Locked,
    /// The record is now unlocked.
    Unlocked,
}

/// Applies one operation to a pool slot, returning the effect the caller
/// must carry out. Each variant behaves exactly as the matching handler:
/// the `ensures` below ties every case to that handler's spec predicate.
pub fn apply(pool: &mut Option<Config>, ledger: LedgerView, caller: u64, op: Operation) -> (r:
    Result<Effect, AmmError>)
    requires
        op matches Operation::Initialize { mint_x, mint_y, .. } ==> (*old(pool)) is None && mint_x
            != mint_y,
        !(op is Initialize) ==> (*old(pool)) is Some,
        (*old(pool)) matches Some(c) ==> c.wf(),
    ensures
        op matches Operation::Initialize { seed, fee, mint_x, mint_y } ==> (match r {
            Ok(e) => ({
                &&& e is Created
                &&& (*final(pool)) matches Some(c) && initialize_spec(
                    seed,
                    fee,
                    caller,
                    mint_x,
                    mint_y,
                    Ok(c),
                )
            }),
            Err(err) => *final(pool) is None && initialize_spec(
                seed,
                fee,
                caller,
                mint_x,
                mint_y,
                Err(err),
            ),
        }),
        op matches Operation::Deposit { amount, max_x, max_y } ==> *final(pool) == *old(pool)
            && (match r {
            Ok(e) => (e matches Effect::Deposited(o) && deposit_spec(
                (*old(pool))->Some_0,
                ledger.reserve_x,
                ledger.reserve_y,
                ledger.share_supply,
                amount,
                max_x,
                max_y,
                Ok(o),
            )),
            Err(err) => deposit_spec(
                (*old(pool))->Some_0,
                ledger.reserve_x,
                ledger.reserve_y,
                ledger.share_supply,
                amount,
                max_x,
                max_y,
                Err(err),
            ),
        }),
        op matches Operation::Withdraw { amount, min_x, min_y } ==> *final(pool) == *old(pool)
            && (match r {
            Ok(e) => (e matches Effect::Withdrawn(o) && withdraw_spec(
                ledger.reserve_x,
                ledger.reserve_y,
                ledger.share_supply,
                amount,
                min_x,
                min_y,
                Ok(o),
            )),
            Err(err) => withdraw_spec(
                ledger.reserve_x,
                ledger.reserve_y,
                ledger.share_supply,
                amount,
                min_x,
                min_y,
                Err(err),
            ),
        }),
        op matches Operation::Swap { mint_in, amount_in, min_amount_out } ==> *final(pool)
            == *old(pool) && (match r {
            Ok(e) => (e matches Effect::Swapped(o) && swap_spec(
                (*old(pool))->Some_0,
                ledger.reserve_x,
                ledger.reserve_y,
                mint_in,
                amount_in,
                min_amount_out,
                Ok(o),
            )),
            Err(err) => swap_spec(
                (*old(pool))->Some_0,
                ledger.reserve_x,
                ledger.reserve_y,
                mint_in,
                amount_in,
                min_amount_out,
                Err(err),
            ),
        }),
        op is Lock ==> ({
            let c = (*old(pool))->Some_0;
            if caller == c.authority {
                r == Ok::<Effect, AmmError>(Effect::Locked) && *final(pool) == Some(
                    (Config { locked: true, ..c }),
                )
            } else {
                r == Err::<Effect, AmmError>(AmmError::Unauthorized) && *final(pool) == *old(pool)
            }
        }),
        op is Unlock ==> ({
            let c = (*old(pool))->Some_0;
            if caller == c.authority {
                r == Ok::<Effect, AmmError>(Effect::Unlocked) && *final(pool) == Some(
                    (Config { locked: false, ..c }),
                )
            } else {
                r == Err::<Effect, AmmError>(AmmError::Unauthorized) && *final(pool) == *old(pool)
            }
        }),
        (*old(pool)) matches Some(c) ==> (*final(pool)) matches Some(c2) && c2.wf() && c2.seed
            == c.seed && c2.authority == c.authority && c2.mint_x == c.mint_x && c2.mint_y
            == c.mint_y && c2.fee == c.fee,
{
    match op {
        Operation::Initialize { seed, fee, mint_x, mint_y } => {
            match handlers::initialize(seed, fee, caller, mint_x, mint_y) {
                Ok(c) => {
                    *pool = Some(c);
                    Ok(Effect::Created)
                },
                Err(e) => Err(e),
            }
        },
        Operation::Deposit { amount, max_x, max_y } => {
            let cfg = match pool {
                Some(c) => *c,
                None => {
                    proof {
                        assert(false);
                    }
                    return Err(AmmError::ZeroBalance);
                },
            };
            match handlers::deposit(
                &cfg,
                ledger.reserve_x,
                ledger.reserve_y,
                ledger.share_supply,
                amount,
                max_x,
                max_y,
            ) {
                Ok(o) => Ok(Effect::Deposited(o)),
                Err(e) => Err(e),
            }
        },
        Operation::Withdraw { amount, min_x, min_y } => {
            match handlers::withdraw(
                ledger.reserve_x,
                ledger.reserve_y,
                ledger.share_supply,
                amount,
                min_x,
                min_y,
            ) {
                Ok(o) => Ok(Effect::Withdrawn(o)),
                Err(e) => Err(e),
            }
        },
        Operation::Swap { mint_in, amount_in, min_amount_out } => {
            let cfg = match pool {
                Some(c) => *c,
                None => {
                    proof {
                        assert(false);
                    }
                    return Err(AmmError::ZeroBalance);
                },
            };
            match handlers::swap(
                &cfg,
                ledger.reserve_x,
                ledger.reserve_y,
                mint_in,
                amount_in,
                min_amount_out,
            ) {
                Ok(o) => Ok(Effect::Swapped(o)),
                Err(e) => Err(e),
            }
        },
        Operation::Lock => {
            let mut cfg = match pool {
                Some(c) => *c,
                None => {
                    proof {
                        assert(false);
                    }
                    return Err(AmmError::ZeroBalance);
                },
            };
            let res = cfg.lock(caller);
            *pool = Some(cfg);
            match res {
                Ok(_) => Ok(Effect::Locked),
                Err(e) => Err(e),
            }
        },
        Operation::Unlock => {
            let mut cfg = match pool {
                Some(c) => *c,
                None => {
                    proof {
                        assert(false);
                    }
                    return Err(AmmError::ZeroBalance);
                },
            };
            let res = cfg.unlock(caller);
            *pool = Some(cfg);
            match res {
                Ok(_) => Ok(Effect::Unlocked),
                Err(e) => Err(e),
            }
        },
    }
}

} // verus!
