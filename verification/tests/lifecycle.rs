use amm::errors::AmmError;
use amm::initialize::Initialize;
use amm::state::{Account, Config, Instruction, ReserveSnapshot};
use amm::swap::Swap;
use amm::update::Update;
use amm::{deposit, initialize, lock, swap, unlock, withdraw};

#[test]
fn initialize_builds_unlocked_record() {
    let ctx = Initialize { mint_x: 11, mint_y: 22 };
    let config = initialize(&ctx, 5, 30, Some(7), 254, 253);
    assert_eq!(config.seed, 5);
    assert_eq!(config.authority, Some(7));
    assert_eq!(config.mint_x, 11);
    assert_eq!(config.mint_y, 22);
    assert_eq!(config.fee, 30);
    assert!(!config.locked);
    assert_eq!(config.config_bump, 254);
    assert_eq!(config.lp_bump, 253);
}

fn fresh_config() -> Config {
    let ctx = Initialize { mint_x: 11, mint_y: 22 };
    initialize(&ctx, 5, 30, Some(7), 254, 253)
}

#[test]
fn lock_requires_the_configured_authority() {
    let mut ctx = Update { user: 8, config: fresh_config() };
    assert_eq!(lock(&mut ctx), Err(AmmError::InvalidAuthority));
    assert!(!ctx.config.locked);
}

#[test]
fn unlock_requires_the_configured_authority() {
    let mut ctx = Update { user: 7, config: fresh_config() };
    assert_eq!(lock(&mut ctx), Ok(()));
    let mut stranger = Update { user: 8, config: ctx.config };
    assert_eq!(unlock(&mut stranger), Err(AmmError::InvalidAuthority));
    assert!(stranger.config.locked);
}

#[test]
fn lock_is_not_idempotent() {
    let mut ctx = Update { user: 7, config: fresh_config() };
    assert_eq!(lock(&mut ctx), Ok(()));
    assert!(ctx.config.locked);
    assert_eq!(lock(&mut ctx), Err(AmmError::PoolLocked));
    assert!(ctx.config.locked);
}

#[test]
fn unlock_of_unlocked_pool_fails() {
    let mut ctx = Update { user: 7, config: fresh_config() };
    assert_eq!(unlock(&mut ctx), Err(AmmError::PoolUnlocked));
    assert!(!ctx.config.locked);
}

#[test]
fn lock_then_unlock_round_trip() {
    let mut ctx = Update { user: 7, config: fresh_config() };
    assert_eq!(lock(&mut ctx), Ok(()));
    assert_eq!(unlock(&mut ctx), Ok(()));
    assert_eq!(ctx.config, fresh_config());
}

#[test]
fn permissionless_pool_can_never_be_locked() {
    let ctx = Initialize { mint_x: 11, mint_y: 22 };
    let config = initialize(&ctx, 5, 30, None, 254, 253);
    let mut admin = Update { user: 7, config };
    assert_eq!(lock(&mut admin), Err(AmmError::InvalidAuthority));
    assert!(!admin.config.locked);
}

#[test]
fn entry_points_forward_to_handlers() {
    let config = fresh_config();
    let reserves = ReserveSnapshot {
        reserve_x: 2_000_000,
        reserve_y: 4_000_000,
        unit_supply: 1_000_000,
    };
    let deposit_ctx = amm::deposit::Deposit { config, reserves };
    let minted = deposit(&deposit_ctx, 500_000, 1_000_000, 2_000_000).unwrap();
    assert_eq!(minted.len(), 3);
    let withdraw_ctx = amm::withdraw::Withdraw { config, reserves, user_lp: 500_000 };
    let redeemed = withdraw(&withdraw_ctx, 500_000, 1_000_000, 2_000_000).unwrap();
    assert_eq!(redeemed.len(), 3);
    let swap_ctx = Swap {
        config,
        reserves: ReserveSnapshot {
            reserve_x: 1_000_000,
            reserve_y: 1_000_000,
            unit_supply: 1_000_000,
        },
    };
    let traded = swap(&swap_ctx, 10_000, true, 9_000).unwrap();
    assert_eq!(
        traded,
        vec![
            Instruction::Transfer { from: Account::UserX, to: Account::VaultX, amount: 10_000 },
            Instruction::Transfer { from: Account::VaultY, to: Account::UserY, amount: 9_871 },
        ]
    );
}

#[test]
fn locked_pool_refuses_lock_before_authority_check() {
    // A locked pool reports PoolLocked even to a caller who is not the
    // authority: the lock-state check comes first.
    let mut ctx = Update { user: 7, config: fresh_config() };
    assert_eq!(lock(&mut ctx), Ok(()));
    let mut stranger = Update { user: 9, config: ctx.config };
    assert_eq!(lock(&mut stranger), Err(AmmError::PoolLocked));
}
