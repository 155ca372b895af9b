use amm_core::dispatch::apply;
use amm_core::dispatch::Effect;
use amm_core::dispatch::LedgerView;
use amm_core::dispatch::Operation;
use amm_core::errors::AmmError;
use amm_core::handlers::DepositOutcome;
use amm_core::handlers::SwapOutcome;
use amm_core::handlers::WithdrawOutcome;

const MINT_X: u64 = 11;
const MINT_Y: u64 = 22;
const ADMIN: u64 = 7;

fn view(reserve_x: u64, reserve_y: u64, share_supply: u64) -> LedgerView {
    LedgerView { reserve_x, reserve_y, share_supply }
}

#[test]
fn a_pool_walks_the_whole_lifecycle() {
    let mut pool = None;
    let init = Operation::Initialize { seed: 1, fee: 30, mint_x: MINT_X, mint_y: MINT_Y };
    assert_eq!(apply(&mut pool, view(0, 0, 0), ADMIN, init), Ok(Effect::Created));
    let cfg = pool.expect("record exists after initialize");
    assert_eq!(cfg.authority, ADMIN);
    assert!(!cfg.locked);

    // Genesis deposit at the caller's chosen ratio.
    let seed_deposit = Operation::Deposit { amount: 100, max_x: 1000, max_y: 1000 };
    assert_eq!(
        apply(&mut pool, view(0, 0, 0), ADMIN, seed_deposit),
        Ok(Effect::Deposited(DepositOutcome {
            amount_x: 1000,
            amount_y: 1000,
            shares_minted: 100
        }))
    );

    // A stranger cannot lock; the record is unchanged.
    assert_eq!(
        apply(&mut pool, view(1000, 1000, 100), ADMIN + 1, Operation::Lock),
        Err(AmmError::Unauthorized)
    );
    assert!(!pool.unwrap().locked);

    // The authority locks; deposits and swaps are now gated.
    assert_eq!(apply(&mut pool, view(1000, 1000, 100), ADMIN, Operation::Lock), Ok(Effect::Locked));
    assert_eq!(
        apply(
            &mut pool,
            view(1000, 1000, 100),
            ADMIN,
            Operation::Deposit { amount: 10, max_x: 200, max_y: 200 }
        ),
        Err(AmmError::PoolLocked)
    );
    assert_eq!(
        apply(
            &mut pool,
            view(1000, 1000, 100),
            ADMIN,
            Operation::Swap { mint_in: MINT_X, amount_in: 100, min_amount_out: 1 }
        ),
        Err(AmmError::PoolLocked)
    );

    // Holders can still exit during the freeze.
    assert_eq!(
        apply(
            &mut pool,
            view(1000, 1000, 100),
            ADMIN,
            Operation::Withdraw { amount: 50, min_x: 1, min_y: 1 }
        ),
        Ok(Effect::Withdrawn(WithdrawOutcome {
            amount_x: 500,
            amount_y: 500,
            shares_burned: 50
        }))
    );

    // Unlock restores trading.
    assert_eq!(
        apply(&mut pool, view(500, 500, 50), ADMIN, Operation::Unlock),
        Ok(Effect::Unlocked)
    );
    assert_eq!(
        apply(
            &mut pool,
            view(1000, 1000, 100),
            ADMIN,
            Operation::Swap { mint_in: MINT_X, amount_in: 100, min_amount_out: 90 }
        ),
        Ok(Effect::Swapped(SwapOutcome {
            mint_in: MINT_X,
            mint_out: MINT_Y,
            amount_in: 100,
            amount_out: 90
        }))
    );
}

#[test]
fn initialize_rejection_leaves_the_slot_empty() {
    let mut pool = None;
    let init = Operation::Initialize { seed: 1, fee: 10000, mint_x: MINT_X, mint_y: MINT_Y };
    assert_eq!(apply(&mut pool, view(0, 0, 0), ADMIN, init), Err(AmmError::InvalidFeeSet));
    assert!(pool.is_none());
}
