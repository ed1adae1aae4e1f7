use amm::deposit::Deposit;
use amm::errors::AmmError;
use amm::state::{Account, Config, Instruction, ReserveSnapshot};
use amm::swap::Swap;
use amm::withdraw::Withdraw;

fn pool_config(locked: bool) -> Config {
    Config {
        seed: 1,
        authority: Some(7),
        mint_x: 11,
        mint_y: 22,
        fee: 30,
        locked,
        config_bump: 254,
        lp_bump: 253,
    }
}

fn snapshot(reserve_x: u64, reserve_y: u64, unit_supply: u64) -> ReserveSnapshot {
    ReserveSnapshot { reserve_x, reserve_y, unit_supply }
}

#[test]
fn deposit_emits_transfers_then_mint() {
    let ctx = Deposit { config: pool_config(false), reserves: snapshot(2_000_000, 4_000_000, 1_000_000) };
    let instructions = ctx.deposit(500_000, 1_000_000, 2_000_000).unwrap();
    assert_eq!(
        instructions,
        vec![
            Instruction::Transfer { from: Account::UserX, to: Account::VaultX, amount: 1_000_000 },
            Instruction::Transfer { from: Account::UserY, to: Account::VaultY, amount: 2_000_000 },
            Instruction::MintUnits { to: Account::UserLp, amount: 500_000 },
        ]
    );
}

#[test]
fn first_deposit_uses_declared_maximums() {
    let ctx = Deposit { config: pool_config(false), reserves: snapshot(0, 0, 0) };
    let instructions = ctx.deposit(1_000, 70, 90).unwrap();
    assert_eq!(
        instructions,
        vec![
            Instruction::Transfer { from: Account::UserX, to: Account::VaultX, amount: 70 },
            Instruction::Transfer { from: Account::UserY, to: Account::VaultY, amount: 90 },
            Instruction::MintUnits { to: Account::UserLp, amount: 1_000 },
        ]
    );
}

#[test]
fn deposit_zero_units_is_invalid() {
    let ctx = Deposit { config: pool_config(false), reserves: snapshot(10, 10, 10) };
    assert_eq!(ctx.deposit(0, 10, 10), Err(AmmError::InvalidAmount));
}

#[test]
fn deposit_above_maximum_is_slippage() {
    let ctx = Deposit { config: pool_config(false), reserves: snapshot(2_000_000, 4_000_000, 1_000_000) };
    assert_eq!(ctx.deposit(500_000, 999_999, 2_000_000), Err(AmmError::SlippageExceeded));
    assert_eq!(ctx.deposit(500_000, 1_000_000, 1_999_999), Err(AmmError::SlippageExceeded));
}

#[test]
fn deposit_overflowing_share_is_precision_error() {
    let ctx = Deposit { config: pool_config(false), reserves: snapshot(u64::MAX, u64::MAX, 1) };
    assert_eq!(ctx.deposit(2, u64::MAX, u64::MAX), Err(AmmError::PrecisionError));
}

#[test]
fn withdraw_emits_transfers_then_burn() {
    let ctx = Withdraw {
        config: pool_config(false),
        reserves: snapshot(2_000_000, 4_000_000, 1_000_000),
        user_lp: 600_000,
    };
    let instructions = ctx.withdraw(500_000, 1_000_000, 2_000_000).unwrap();
    assert_eq!(
        instructions,
        vec![
            Instruction::Transfer { from: Account::VaultX, to: Account::UserX, amount: 1_000_000 },
            Instruction::Transfer { from: Account::VaultY, to: Account::UserY, amount: 2_000_000 },
            Instruction::BurnUnits { from: Account::UserLp, amount: 500_000 },
        ]
    );
}

#[test]
fn withdraw_zero_units_is_invalid() {
    let ctx = Withdraw { config: pool_config(false), reserves: snapshot(10, 10, 10), user_lp: 10 };
    assert_eq!(ctx.withdraw(0, 0, 0), Err(AmmError::InvalidAmount));
}

#[test]
fn withdraw_beyond_holdings_is_insufficient_balance() {
    let ctx = Withdraw { config: pool_config(false), reserves: snapshot(1_000, 1_000, 1_000), user_lp: 99 };
    assert_eq!(ctx.withdraw(100, 0, 0), Err(AmmError::InsufficientBalance));
}

#[test]
fn withdraw_zero_supply_is_precision_error() {
    let ctx = Withdraw { config: pool_config(false), reserves: snapshot(1_000, 1_000, 0), user_lp: 100 };
    assert_eq!(ctx.withdraw(100, 0, 0), Err(AmmError::PrecisionError));
}

#[test]
fn withdraw_below_minimum_is_slippage() {
    let ctx = Withdraw {
        config: pool_config(false),
        reserves: snapshot(2_000_000, 4_000_000, 1_000_000),
        user_lp: 500_000,
    };
    assert_eq!(ctx.withdraw(500_000, 1_000_001, 2_000_000), Err(AmmError::SlippageExceeded));
    assert_eq!(ctx.withdraw(500_000, 1_000_000, 2_000_001), Err(AmmError::SlippageExceeded));
}

#[test]
fn swap_x_for_y_emits_both_transfers() {
    let ctx = Swap { config: pool_config(false), reserves: snapshot(1_000_000, 1_000_000, 1_000_000) };
    let instructions = ctx.swap(10_000, true, 9_000).unwrap();
    assert_eq!(
        instructions,
        vec![
            Instruction::Transfer { from: Account::UserX, to: Account::VaultX, amount: 10_000 },
            Instruction::Transfer { from: Account::VaultY, to: Account::UserY, amount: 9_871 },
        ]
    );
}

#[test]
fn swap_y_for_x_mirrors_accounts() {
    let ctx = Swap { config: pool_config(false), reserves: snapshot(1_000_000, 1_000_000, 1_000_000) };
    let instructions = ctx.swap(10_000, false, 9_000).unwrap();
    assert_eq!(
        instructions,
        vec![
            Instruction::Transfer { from: Account::UserY, to: Account::VaultY, amount: 10_000 },
            Instruction::Transfer { from: Account::VaultX, to: Account::UserX, amount: 9_871 },
        ]
    );
}

#[test]
fn swap_zero_input_is_invalid() {
    let ctx = Swap { config: pool_config(false), reserves: snapshot(1_000_000, 1_000_000, 1_000_000) };
    assert_eq!(ctx.swap(0, true, 0), Err(AmmError::InvalidAmount));
}

#[test]
fn swap_empty_reserve_is_curve_error() {
    let ctx = Swap { config: pool_config(false), reserves: snapshot(0, 1_000_000, 1_000_000) };
    assert_eq!(ctx.swap(10, true, 0), Err(AmmError::CurveError));
    let ctx = Swap { config: pool_config(false), reserves: snapshot(1_000_000, 0, 1_000_000) };
    assert_eq!(ctx.swap(10, false, 0), Err(AmmError::CurveError));
}

#[test]
fn swap_below_minimum_is_slippage() {
    let ctx = Swap { config: pool_config(false), reserves: snapshot(1_000_000, 1_000_000, 1_000_000) };
    assert_eq!(ctx.swap(10_000, true, 9_872), Err(AmmError::SlippageExceeded));
}

#[test]
fn swap_rounded_to_nothing_is_invalid() {
    let ctx = Swap { config: pool_config(false), reserves: snapshot(1_000_000, 1_000_000, 1_000_000) };
    // 1 * 9970 / 10_000 discounts to a zero effective input.
    assert_eq!(ctx.swap(1, true, 0), Err(AmmError::InvalidAmount));
}

#[test]
fn locked_pool_refuses_every_operation() {
    let config = pool_config(true);
    let deposit_ctx = Deposit { config, reserves: snapshot(2_000_000, 4_000_000, 1_000_000) };
    assert_eq!(deposit_ctx.deposit(500_000, 1_000_000, 2_000_000), Err(AmmError::PoolLocked));
    let withdraw_ctx = Withdraw {
        config,
        reserves: snapshot(2_000_000, 4_000_000, 1_000_000),
        user_lp: 500_000,
    };
    assert_eq!(withdraw_ctx.withdraw(500_000, 0, 0), Err(AmmError::PoolLocked));
    let swap_ctx = Swap { config, reserves: snapshot(1_000_000, 1_000_000, 1_000_000) };
    assert_eq!(swap_ctx.swap(10_000, true, 0), Err(AmmError::PoolLocked));
}
