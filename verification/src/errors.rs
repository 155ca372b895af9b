//! Typed rejections surfaced by the arithmetic helpers, the curve engine and
//! the operation handlers. Every error is detected before any ledger
//! instruction would be issued, so a failing operation leaves all state
//! untouched.

use vstd::prelude::*;

verus! {

/// The reasons an operation can be rejected.
#[derive(Clone, Copy, Debug, PartialEq, Eq, Structural)]
pub enum AmmError {
    /// A required amount argument is zero.
    ZeroBalance,
    /// A computed amount violates a caller-supplied bound.
    SlippageExceeded,
    /// The operation is disallowed while the pool is locked.
    PoolLocked,
    /// The caller is not the recorded pool authority.
    Unauthorized,
    /// The fee rate is at or above 100%.
    InvalidFeeSet,
    /// The swap input asset matches neither pool asset.
    InvalidInputMint,
    /// An intermediate product or quotient does not fit the balance type.
    MathOverflow,
    /// A division by zero was requested.
    DivideByZero,
    /// Shares are outstanding against a drained reserve, or a burn exceeds
    /// the outstanding supply.
    InsufficientLiquidity,
}

} // verus!
