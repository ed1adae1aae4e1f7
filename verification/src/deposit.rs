use vstd::prelude::*;

use crate::curve::{deposit_amounts, spec_proportional};
use crate::errors::AmmError;
use crate::state::{instructions_view, Account, Config, Instruction, ReserveSnapshot};

verus! {

/// One pending liquidity deposit: the pool record and the reserve and
/// supply readings taken fresh for this operation.
pub struct Deposit {
    /// The pool record the deposit acts on.
    pub config: Config,
    /// Reserve and supply readings for this operation.
    pub reserves: ReserveSnapshot,
}

/// The instruction list a successful deposit emits: both assets move
/// from the depositor into the vaults, then the requested units are
/// minted to the depositor. The hosting environment applies all three
/// atomically, or none.
pub open spec fn spec_deposit_instructions(x: u64, y: u64, units: u64) -> Seq<Instruction> {
    seq![
        Instruction::Transfer { from: Account::UserX, to: Account::VaultX, amount: x },
        Instruction::Transfer { from: Account::UserY, to: Account::VaultY, amount: y },
        Instruction::MintUnits { to: Account::UserLp, amount: units },
    ]
}

/// Decision function of the deposit handler, checked in this order: a
/// locked pool refuses outright; a zero unit request is invalid; a
/// proportional share beyond the native width is a precision failure; a
/// share above a caller maximum is slippage; otherwise the three
/// instructions are emitted. On the first deposit (supply zero) the
/// caller maximums are taken verbatim, so neither the precision nor the
/// slippage failure can arise there.
pub open spec fn spec_deposit_outcome(
    config: Config,
    rs: ReserveSnapshot,
    amount: u64,
    max_x: u64,
    max_y: u64,
) -> Result<Seq<Instruction>, AmmError> {
    if config.locked {
        Err(AmmError::PoolLocked)
    } else if amount == 0 {
        Err(AmmError::InvalidAmount)
    } else {
        let x = if rs.unit_supply == 0 {
            max_x as int
        } else {
            spec_proportional(amount as int, rs.reserve_x as int, rs.unit_supply as int)
        };
        let y = if rs.unit_supply == 0 {
            max_y as int
        } else {
            spec_proportional(amount as int, rs.reserve_y as int, rs.unit_supply as int)
        };
        if x > u64::MAX || y > u64::MAX {
            Err(AmmError::PrecisionError)
        } else if x > max_x || y > max_y {
            Err(AmmError::SlippageExceeded)
        } else {
            Ok(spec_deposit_instructions(x as u64, y as u64, amount))
        }
    }
}

impl Deposit {
    /// Deposit handler: prices `amount` requested pool-ownership units
    /// against the snapshot and either emits the transfer and mint
    /// requests or fails, exactly as `spec_deposit_outcome` decides.
    /// A locked pool fails with `PoolLocked` whatever the parameters.
    pub fn deposit(&self, amount: u64, max_x: u64, max_y: u64) -> (r: Result<
        Vec<Instruction>,
        AmmError,
    >)
        ensures
            instructions_view(r) == spec_deposit_outcome(
                self.config,
                self.reserves,
                amount,
                max_x,
                max_y,
            ),
            self.config.locked ==> r == Err::<Vec<Instruction>, AmmError>(AmmError::PoolLocked),
    {
        if self.config.locked {
            return Err(AmmError::PoolLocked);
        }
        if amount == 0 {
            return Err(AmmError::InvalidAmount);
        }
        let amounts = deposit_amounts(
            self.reserves.reserve_x,
            self.reserves.reserve_y,
            self.reserves.unit_supply,
            amount,
            max_x,
            max_y,
        );
        let (x, y) = match amounts {
            Ok(pair) => pair,
            Err(e) => {
                return Err(e);
            },
        };
        if x > max_x || y > max_y {
            return Err(AmmError::SlippageExceeded);
        }
        let mut instructions: Vec<Instruction> = Vec::new();
        instructions.push(self.deposit_tokens(true, x));
        instructions.push(self.deposit_tokens(false, y));
        instructions.push(self.mint_lp_token(amount));
        proof {
            assert(instructions@ =~= spec_deposit_instructions(x, y, amount));
        }
        Ok(instructions)
    }

    /// Transfer request moving a depositor's assets into the matching
    /// vault: asset X when `is_x` is set, asset Y otherwise.
    pub fn deposit_tokens(&self, is_x: bool, amount: u64) -> (ins: Instruction)
        ensures
            is_x ==> ins == (Instruction::Transfer {
                from: Account::UserX,
                to: Account::VaultX,
                amount,
            }),
            !is_x ==> ins == (Instruction::Transfer {
                from: Account::UserY,
                to: Account::VaultY,
                amount,
            }),
    {
        if is_x {
            Instruction::Transfer { from: Account::UserX, to: Account::VaultX, amount }
        } else {
            Instruction::Transfer { from: Account::UserY, to: Account::VaultY, amount }
        }
    }

    /// Mint request issuing fresh pool-ownership units to the depositor.
    pub fn mint_lp_token(&self, amount: u64) -> (ins: Instruction)
        ensures
            ins == (Instruction::MintUnits { to: Account::UserLp, amount }),
    {
        Instruction::MintUnits { to: Account::UserLp, amount }
    }
}

} // verus!
