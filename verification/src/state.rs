use vstd::prelude::*;

use crate::errors::AmmError;

verus! {

/// Trading fee rates are expressed in basis points, units of 1/10_000.
pub const MAX_FEE_BPS: u16 = 10_000;

/// Durable record describing one trading pair.
///
/// Identities (the optional authority) and asset identifiers are plain
/// integers here: the core never derives or interprets addresses, it only
/// compares them. The bump fields are derivation metadata kept for the
/// hosting environment and never read by the core's own logic.
#[derive(Clone, Copy, Debug, PartialEq, Eq, Structural)]
pub struct Config {
    /// Opaque discriminator allowing several independent pools over the
    /// same asset pair; immutable after creation.
    pub seed: u64,
    /// Identity permitted to lock and unlock the pool. `None` means the
    /// pool is permissionless and can never be locked by anyone.
    pub authority: Option<u64>,
    /// Identifier of the first tradable asset; immutable.
    pub mint_x: u64,
    /// Identifier of the second tradable asset; immutable.
    pub mint_y: u64,
    /// Trading fee in basis points (0 to 10_000); immutable after creation.
    pub fee: u16,
    /// Lock flag; `false` at creation, toggled only by lock and unlock.
    pub locked: bool,
    /// Derivation metadata for the hosting environment; opaque to the core.
    pub config_bump: u8,
    /// Derivation metadata for the hosting environment; opaque to the core.
    pub lp_bump: u8,
}

impl Config {
    /// Well-formedness: the two assets differ and the fee is a valid
    /// basis-point rate. Established at initialization and preserved by
    /// every handler (none of them touches these fields).
    pub open spec fn wf(self) -> bool {
        &&& self.mint_x != self.mint_y
        &&& self.fee <= MAX_FEE_BPS
    }
}

/// Reserve and supply readings taken fresh before one operation, owned by
/// the calling handler for the duration of that operation.
#[derive(Clone, Copy, Debug, PartialEq, Eq, Structural)]
pub struct ReserveSnapshot {
    /// Quantity of asset X currently held by the pool's vault.
    pub reserve_x: u64,
    /// Quantity of asset Y currently held by the pool's vault.
    pub reserve_y: u64,
    /// Outstanding pool-ownership units.
    pub unit_supply: u64,
}

/// Custodial accounts an instruction can name, identified by their role
/// in the current operation. How the hosting environment represents or
/// derives the actual accounts is of no concern to the core.
#[derive(Clone, Copy, Debug, PartialEq, Eq, Structural)]
pub enum Account {
    /// The calling party's account for asset X.
    UserX,
    /// The calling party's account for asset Y.
    UserY,
    /// The calling party's account for pool-ownership units.
    UserLp,
    /// The pool vault's account for asset X.
    VaultX,
    /// The pool vault's account for asset Y.
    VaultY,
}

/// One request to the hosting environment. A successful operation returns
/// a small ordered list of these; the environment must apply the whole
/// list atomically, or none of it.
#[derive(Clone, Copy, Debug, PartialEq, Eq, Structural)]
pub enum Instruction {
    /// Move `amount` of the asset held by `from` into `to`.
    Transfer { from: Account, to: Account, amount: u64 },
    /// Create `amount` new pool-ownership units in `to`.
    MintUnits { to: Account, amount: u64 },
    /// Destroy `amount` pool-ownership units held by `from`.
    BurnUnits { from: Account, amount: u64 },
}

/// Mathematical reading of a handler result: the emitted instruction list
/// as a sequence, or the error unchanged.
pub open spec fn instructions_view(r: Result<Vec<Instruction>, AmmError>) -> Result<
    Seq<Instruction>,
    AmmError,
> {
    match r {
        Ok(v) => Ok(v@),
        Err(e) => Err(e),
    }
}

} // verus!
