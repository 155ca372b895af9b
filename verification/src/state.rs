//! The pool record: the configuration a pool persists between operations.
//!
//! The record holds identity and policy only — seed, asset identifiers, fee
//! rate, authority and the lock flag. Reserve balances and the share supply
//! live in the external ledger and are read fresh on every operation, so
//! the ledger stays the single source of truth for balances.

use vstd::prelude::*;

verus! {

use crate::errors::AmmError;
use crate::curve::FEE_SCALE;

/// The persistent configuration of one pool.
///
/// Created once by `initialize`; only the `locked` flag ever changes
/// afterwards, through `lock` and `unlock`.
#[derive(Clone, Copy, Debug, PartialEq, Eq, Structural)]
pub struct Config {
    /// Discriminator allowing several pools over the same asset pair.
    pub seed: u64,
    /// The identity permitted to lock and unlock the pool.
    pub authority: u64,
    /// Identifier of the first tradable asset.
    pub mint_x: u64,
    /// Identifier of the second tradable asset.
    pub mint_y: u64,
    /// Fee rate in basis points, strictly below `FEE_SCALE`.
    pub fee: u16,
    /// While set, deposits and swaps are rejected.
    pub locked: bool,
}

impl Config {
    /// Well-formedness: the two assets are distinct and the fee is below
    /// 100%. Established at creation and preserved by every operation.
    pub open spec fn wf(self) -> bool {
        self.mint_x != self.mint_y && self.fee < FEE_SCALE
    }

    /// Halts new exposure: only the recorded authority may set the lock.
    /// Any other caller is rejected and the record is left unchanged.
    pub fn lock(&mut self, caller: u64) -> (r: Result<(), AmmError>)
        ensures
            caller != old(self).authority ==> r == Err::<(), AmmError>(AmmError::Unauthorized)
                && *final(self) == *old(self),
            caller == old(self).authority ==> r == Ok::<(), AmmError>(()) && *final(self) == (Config {
                locked: true,
                ..*old(self)
            }),
    {
        if caller != self.authority {
            return Err(AmmError::Unauthorized);
        }
        self.locked = true;
        Ok(())
    }

    /// Reopens the pool: only the recorded authority may clear the lock.
    /// Any other caller is rejected and the record is left unchanged.
    pub fn unlock(&mut self, caller: u64) -> (r: Result<(), AmmError>)
        ensures
            caller != old(self).authority ==> r == Err::<(), AmmError>(AmmError::Unauthorized)
                && *final(self) == *old(self),
            caller == old(self).authority ==> r == Ok::<(), AmmError>(()) && *final(self) == (Config {
                locked: false,
                ..*old(self)
            }),
    {
        if caller != self.authority {
            return Err(AmmError::Unauthorized);
        }
        self.locked = false;
        Ok(())
    }
}

} // verus!
