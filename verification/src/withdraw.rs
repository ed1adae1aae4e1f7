use vstd::prelude::*;

use crate::curve::{spec_proportional, withdraw_amounts};
use crate::errors::AmmError;
use crate::state::{instructions_view, Account, Config, Instruction, ReserveSnapshot};

verus! {

/// One pending liquidity withdrawal: the pool record, the reserve and
/// supply readings taken fresh for this operation, and the calling
/// party's current holding of pool-ownership units.
pub struct Withdraw {
    /// The pool record the withdrawal acts on.
    pub config: Config,
    /// Reserve and supply readings for this operation.
    pub reserves: ReserveSnapshot,
    /// Pool-ownership units currently held by the caller.
    pub user_lp: u64,
}

/// The instruction list a successful withdrawal emits: both assets move
/// from the vaults to the withdrawer, then the burned units leave the
/// withdrawer's holdings. The hosting environment applies all three
/// atomically, or none.
pub open spec fn spec_withdraw_instructions(x: u64, y: u64, units: u64) -> Seq<Instruction> {
    seq![
        Instruction::Transfer { from: Account::VaultX, to: Account::UserX, amount: x },
        Instruction::Transfer { from: Account::VaultY, to: Account::UserY, amount: y },
        Instruction::BurnUnits { from: Account::UserLp, amount: units },
    ]
}

/// Decision function of the withdraw handler, checked in this order: a
/// locked pool refuses outright; a zero burn request is invalid; holdings
/// short of the burn are an insufficient balance; a zero unit supply, or
/// a proportional share beyond the native width, is a precision failure;
/// a share below a caller minimum is slippage; otherwise the three
/// instructions are emitted.
pub open spec fn spec_withdraw_outcome(
    config: Config,
    rs: ReserveSnapshot,
    user_lp: u64,
    amount: u64,
    min_x: u64,
    min_y: u64,
) -> Result<Seq<Instruction>, AmmError> {
    if config.locked {
        Err(AmmError::PoolLocked)
    } else if amount == 0 {
        Err(AmmError::InvalidAmount)
    } else if user_lp < amount {
        Err(AmmError::InsufficientBalance)
    } else if rs.unit_supply == 0 {
        Err(AmmError::PrecisionError)
    } else {
        let x = spec_proportional(amount as int, rs.reserve_x as int, rs.unit_supply as int);
        let y = spec_proportional(amount as int, rs.reserve_y as int, rs.unit_supply as int);
        if x > u64::MAX || y > u64::MAX {
            Err(AmmError::PrecisionError)
        } else if x < min_x || y < min_y {
            Err(AmmError::SlippageExceeded)
        } else {
            Ok(spec_withdraw_instructions(x as u64, y as u64, amount))
        }
    }
}

impl Withdraw {
    /// Withdraw handler: prices the burn of `amount` pool-ownership
    /// units against the snapshot and either emits the transfer and burn
    /// requests or fails, exactly as `spec_withdraw_outcome` decides.
    /// A locked pool fails with `PoolLocked` whatever the parameters.
    pub fn withdraw(&self, amount: u64, min_x: u64, min_y: u64) -> (r: Result<
        Vec<Instruction>,
        AmmError,
    >)
        ensures
            instructions_view(r) == spec_withdraw_outcome(
                self.config,
                self.reserves,
                self.user_lp,
                amount,
                min_x,
                min_y,
            ),
            self.config.locked ==> r == Err::<Vec<Instruction>, AmmError>(AmmError::PoolLocked),
    {
        if self.config.locked {
            return Err(AmmError::PoolLocked);
        }
        if amount == 0 {
            return Err(AmmError::InvalidAmount);
        }
        if self.user_lp < amount {
            return Err(AmmError::InsufficientBalance);
        }
        let amounts = withdraw_amounts(
            self.reserves.reserve_x,
            self.reserves.reserve_y,
            self.reserves.unit_supply,
            amount,
        );
        let (x, y) = match amounts {
            Ok(pair) => pair,
            Err(e) => {
                return Err(e);
            },
        };
        if x < min_x || y < min_y {
            return Err(AmmError::SlippageExceeded);
        }
        let mut instructions: Vec<Instruction> = Vec::new();
        instructions.push(self.withdraw_token(true, x));
        instructions.push(self.withdraw_token(false, y));
        instructions.push(self.burn(amount));
        proof {
            assert(instructions@ =~= spec_withdraw_instructions(x, y, amount));
        }
        Ok(instructions)
    }

    /// Transfer request moving assets from the matching vault to the
    /// withdrawer: asset X when `is_x` is set, asset Y otherwise.
    pub fn withdraw_token(&self, is_x: bool, amount: u64) -> (ins: Instruction)
        ensures
            is_x ==> ins == (Instruction::Transfer {
                from: Account::VaultX,
                to: Account::UserX,
                amount,
            }),
            !is_x ==> ins == (Instruction::Transfer {
                from: Account::VaultY,
                to: Account::UserY,
                amount,
            }),
    {
        if is_x {
            Instruction::Transfer { from: Account::VaultX, to: Account::UserX, amount }
        } else {
            Instruction::Transfer { from: Account::VaultY, to: Account::UserY, amount }
        }
    }

    /// Burn request destroying pool-ownership units held by the
    /// withdrawer, so the redeemed share cannot be claimed twice.
    pub fn burn(&self, amount: u64) -> (ins: Instruction)
        ensures
            ins == (Instruction::BurnUnits { from: Account::UserLp, amount }),
    {
        Instruction::BurnUnits { from: Account::UserLp, amount }
    }
}

} // verus!
