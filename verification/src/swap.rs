use vstd::prelude::*;
use vstd::arithmetic::mul::lemma_mul_is_commutative;

use crate::curve::{
    lemma_fee_discount_bounds, lemma_swap_out_bounds, lemma_swap_preserves_product,
    spec_fee_discounted, spec_swap_out, swap_output,
};
use crate::errors::AmmError;
use crate::state::{instructions_view, Account, Config, Instruction, ReserveSnapshot};

verus! {

/// One pending swap: the pool record and the reserve and supply readings
/// taken fresh for this operation.
pub struct Swap {
    /// The pool record the swap acts on.
    pub config: Config,
    /// Reserve and supply readings for this operation. A swap never
    /// touches the unit supply; it is carried only as part of the
    /// snapshot the handler was given.
    pub reserves: ReserveSnapshot,
}

/// The instruction list a successful swap emits: the sold asset moves
/// from the trader into its vault, the bought asset moves from the other
/// vault to the trader. With `is_x` set the trader sells X and receives
/// Y; otherwise the mirror image. The hosting environment applies both
/// atomically, or none.
pub open spec fn spec_swap_instructions(is_x: bool, amount_in: u64, amount_out: u64) -> Seq<
    Instruction,
> {
    if is_x {
        seq![
            Instruction::Transfer { from: Account::UserX, to: Account::VaultX, amount: amount_in },
            Instruction::Transfer { from: Account::VaultY, to: Account::UserY, amount: amount_out },
        ]
    } else {
        seq![
            Instruction::Transfer { from: Account::UserY, to: Account::VaultY, amount: amount_in },
            Instruction::Transfer { from: Account::VaultX, to: Account::UserX, amount: amount_out },
        ]
    }
}

/// Decision function of the swap handler, checked in this order: a
/// locked pool refuses outright; a zero input is invalid; an empty
/// reserve on either side is a curve failure; a computed output of zero
/// is invalid; an output below the caller minimum is slippage; otherwise
/// the two transfers are emitted.
pub open spec fn spec_swap_outcome(
    config: Config,
    rs: ReserveSnapshot,
    amount: u64,
    is_x: bool,
    min: u64,
) -> Result<Seq<Instruction>, AmmError> {
    if config.locked {
        Err(AmmError::PoolLocked)
    } else if amount == 0 {
        Err(AmmError::InvalidAmount)
    } else {
        let reserve_in = if is_x {
            rs.reserve_x
        } else {
            rs.reserve_y
        };
        let reserve_out = if is_x {
            rs.reserve_y
        } else {
            rs.reserve_x
        };
        if reserve_in == 0 || reserve_out == 0 {
            Err(AmmError::CurveError)
        } else {
            let out = spec_swap_out(
                reserve_in as int,
                reserve_out as int,
                spec_fee_discounted(amount as int, config.fee as int),
            );
            if out == 0 {
                Err(AmmError::InvalidAmount)
            } else if out < min {
                Err(AmmError::SlippageExceeded)
            } else {
                Ok(spec_swap_instructions(is_x, amount, out as u64))
            }
        }
    }
}

impl Swap {
    /// Swap handler: prices `amount` of the sold asset against the
    /// snapshot, discounting the pool's fee, and either emits the two
    /// transfer requests or fails, exactly as `spec_swap_outcome`
    /// decides. A locked pool fails with `PoolLocked` whatever the
    /// parameters.
    pub fn swap(&self, amount: u64, is_x: bool, min: u64) -> (r: Result<Vec<Instruction>, AmmError>)
        requires
            self.config.wf(),
        ensures
            instructions_view(r) == spec_swap_outcome(
                self.config,
                self.reserves,
                amount,
                is_x,
                min,
            ),
            self.config.locked ==> r == Err::<Vec<Instruction>, AmmError>(AmmError::PoolLocked),
    {
        if self.config.locked {
            return Err(AmmError::PoolLocked);
        }
        if amount == 0 {
            return Err(AmmError::InvalidAmount);
        }
        let (reserve_in, reserve_out) = if is_x {
            (self.reserves.reserve_x, self.reserves.reserve_y)
        } else {
            (self.reserves.reserve_y, self.reserves.reserve_x)
        };
        proof {
            lemma_fee_discount_bounds(amount as int, self.config.fee as int);
            if reserve_in > 0 {
                lemma_swap_out_bounds(
                    reserve_in as int,
                    reserve_out as int,
                    spec_fee_discounted(amount as int, self.config.fee as int),
                );
            }
        }
        let out = match swap_output(reserve_in, reserve_out, amount, self.config.fee) {
            Ok(v) => v,
            Err(e) => {
                return Err(e);
            },
        };
        if out < min {
            return Err(AmmError::SlippageExceeded);
        }
        let mut instructions: Vec<Instruction> = Vec::new();
        instructions.push(self.deposit_tokens_being_sold(is_x, amount));
        instructions.push(self.withdraw_tokens_being_bought(is_x, out));
        proof {
            assert(instructions@ =~= spec_swap_instructions(is_x, amount, out));
        }
        Ok(instructions)
    }

    /// Transfer request moving the sold asset from the trader into its
    /// vault: asset X when `is_x` is set, asset Y otherwise.
    pub fn deposit_tokens_being_sold(&self, is_x: bool, amount: u64) -> (ins: Instruction)
        ensures
            is_x ==> ins == (Instruction::Transfer {
                from: Account::UserX,
                to: Account::VaultX,
                amount,
            }),
            !is_x ==> ins == (Instruction::Transfer {
                from: Account::UserY,
                to: Account::VaultY,
                amount,
            }),
    {
        if is_x {
            Instruction::Transfer { from: Account::UserX, to: Account::VaultX, amount }
        } else {
            Instruction::Transfer { from: Account::UserY, to: Account::VaultY, amount }
        }
    }

    /// Transfer request moving the bought asset from its vault to the
    /// trader: the trader who sold X receives Y, and the mirror image
    /// otherwise.
    pub fn withdraw_tokens_being_bought(&self, is_x: bool, amount: u64) -> (ins: Instruction)
        ensures
            is_x ==> ins == (Instruction::Transfer {
                from: Account::VaultY,
                to: Account::UserY,
                amount,
            }),
            !is_x ==> ins == (Instruction::Transfer {
                from: Account::VaultX,
                to: Account::UserX,
                amount,
            }),
    {
        if is_x {
            Instruction::Transfer { from: Account::VaultY, to: Account::UserY, amount }
        } else {
            Instruction::Transfer { from: Account::VaultX, to: Account::UserX, amount }
        }
    }
}

/// Invariant preservation: after any swap against live reserves, the
/// product of the reserves is at least what it was before, whichever
/// direction was traded. The full raw input enters the incoming reserve
/// (the fee stays in the pool) while only the floor-rounded
/// constant-product output leaves the outgoing one.
pub proof fn lemma_swap_preserves_invariant(
    rs: ReserveSnapshot,
    amount: u64,
    is_x: bool,
    fee_bps: u16,
)
    requires
        fee_bps <= 10_000,
        rs.reserve_x > 0,
        rs.reserve_y > 0,
    ensures
        ({
            let reserve_in = if is_x {
                rs.reserve_x as int
            } else {
                rs.reserve_y as int
            };
            let reserve_out = if is_x {
                rs.reserve_y as int
            } else {
                rs.reserve_x as int
            };
            let out = spec_swap_out(
                reserve_in,
                reserve_out,
                spec_fee_discounted(amount as int, fee_bps as int),
            );
            let reserve_x_after = if is_x {
                rs.reserve_x + amount
            } else {
                rs.reserve_x - out
            };
            let reserve_y_after = if is_x {
                rs.reserve_y - out
            } else {
                rs.reserve_y + amount
            };
            reserve_x_after * reserve_y_after >= rs.reserve_x * rs.reserve_y
        }),
{
    let reserve_in = if is_x {
        rs.reserve_x as int
    } else {
        rs.reserve_y as int
    };
    let reserve_out = if is_x {
        rs.reserve_y as int
    } else {
        rs.reserve_x as int
    };
    let out = spec_swap_out(
        reserve_in,
        reserve_out,
        spec_fee_discounted(amount as int, fee_bps as int),
    );
    lemma_swap_preserves_product(reserve_in, reserve_out, amount as int, fee_bps as int);
    lemma_mul_is_commutative(reserve_out - out, reserve_in + amount);
    lemma_mul_is_commutative(reserve_out, reserve_in);
}

} // verus!
