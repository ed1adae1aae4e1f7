//! Computational core of a two-asset constant-product automated market
//! maker.
//!
//! The crate prices swaps, issues and redeems pool-ownership units, and
//! enforces pool-wide safety rules. It performs no I/O: every operation
//! handler validates its inputs, evaluates the constant-product curve,
//! and either returns a small ordered list of transfer, mint and burn
//! requests for the hosting environment to execute atomically, or fails
//! with a typed error and emits nothing.
//!
//! The hosting environment must serialize all operations against a given
//! pool: a handler's reserve and supply snapshot has to be read and acted
//! upon as one indivisible step, or the computed amounts go stale.

use vstd::prelude::*;

pub mod curve;
pub mod deposit;
pub mod errors;
pub mod initialize;
pub mod math;
pub mod state;
pub mod swap;
pub mod update;
pub mod withdraw;

use crate::deposit::{spec_deposit_outcome, Deposit};
use crate::errors::AmmError;
use crate::initialize::Initialize;
use crate::state::{instructions_view, Config, Instruction, MAX_FEE_BPS};
use crate::swap::{spec_swap_outcome, Swap};
use crate::update::Update;
use crate::withdraw::{spec_withdraw_outcome, Withdraw};

verus! {

/// Entry point of pool creation; see [`Initialize::init`].
pub fn initialize(
    ctx: &Initialize,
    seed: u64,
    fee: u16,
    authority: Option<u64>,
    config_bump: u8,
    lp_bump: u8,
) -> (c: Config)
    requires
        fee <= MAX_FEE_BPS,
        ctx.mint_x != ctx.mint_y,
    ensures
        c == (Config {
            seed,
            authority,
            mint_x: ctx.mint_x,
            mint_y: ctx.mint_y,
            fee,
            locked: false,
            config_bump,
            lp_bump,
        }),
        c.wf(),
        !c.locked,
{
    ctx.init(seed, authority, fee, config_bump, lp_bump)
}

/// Entry point of the deposit operation; see [`Deposit::deposit`].
pub fn deposit(ctx: &Deposit, amount: u64, max_x: u64, max_y: u64) -> (r: Result<
    Vec<Instruction>,
    AmmError,
>)
    ensures
        instructions_view(r) == spec_deposit_outcome(
            ctx.config,
            ctx.reserves,
            amount,
            max_x,
            max_y,
        ),
        ctx.config.locked ==> r == Err::<Vec<Instruction>, AmmError>(AmmError::PoolLocked),
{
    ctx.deposit(amount, max_x, max_y)
}

/// Entry point of the swap operation; see [`Swap::swap`].
pub fn swap(ctx: &Swap, amount: u64, is_x: bool, min: u64) -> (r: Result<
    Vec<Instruction>,
    AmmError,
>)
    requires
        ctx.config.wf(),
    ensures
        instructions_view(r) == spec_swap_outcome(ctx.config, ctx.reserves, amount, is_x, min),
        ctx.config.locked ==> r == Err::<Vec<Instruction>, AmmError>(AmmError::PoolLocked),
{
    ctx.swap(amount, is_x, min)
}

/// Entry point of the withdraw operation; see [`Withdraw::withdraw`].
pub fn withdraw(ctx: &Withdraw, amount: u64, min_x: u64, min_y: u64) -> (r: Result<
    Vec<Instruction>,
    AmmError,
>)
    ensures
        instructions_view(r) == spec_withdraw_outcome(
            ctx.config,
            ctx.reserves,
            ctx.user_lp,
            amount,
            min_x,
            min_y,
        ),
        ctx.config.locked ==> r == Err::<Vec<Instruction>, AmmError>(AmmError::PoolLocked),
{
    ctx.withdraw(amount, min_x, min_y)
}

/// Entry point of the administrative lock; see [`Update::lock`].
pub fn lock(ctx: &mut Update) -> (r: Result<(), AmmError>)
    ensures
        old(ctx).config.locked ==> r == Err::<(), AmmError>(AmmError::PoolLocked) && *final(ctx)
            == *old(ctx),
        !old(ctx).config.locked && !old(ctx).spec_is_authority() ==> r == Err::<(), AmmError>(
            AmmError::InvalidAuthority,
        ) && *final(ctx) == *old(ctx),
        !old(ctx).config.locked && old(ctx).spec_is_authority() ==> r == Ok::<(), AmmError>(())
            && final(ctx).user == old(ctx).user && final(ctx).config == (Config {
            locked: true,
            ..old(ctx).config
        }),
{
    ctx.lock()
}

/// Entry point of the administrative unlock; see [`Update::unlock`].
pub fn unlock(ctx: &mut Update) -> (r: Result<(), AmmError>)
    ensures
        !old(ctx).config.locked ==> r == Err::<(), AmmError>(AmmError::PoolUnlocked) && *final(ctx)
            == *old(ctx),
        old(ctx).config.locked && !old(ctx).spec_is_authority() ==> r == Err::<(), AmmError>(
            AmmError::InvalidAuthority,
        ) && *final(ctx) == *old(ctx),
        old(ctx).config.locked && old(ctx).spec_is_authority() ==> r == Ok::<(), AmmError>(())
            && final(ctx).user == old(ctx).user && final(ctx).config == (Config {
            locked: false,
            ..old(ctx).config
        }),
{
    ctx.unlock()
}

} // verus!
