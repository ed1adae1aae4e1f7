use vstd::prelude::*;

use crate::state::{Config, MAX_FEE_BPS};

verus! {

/// Creation of one pool: the identifiers of the two tradable assets.
pub struct Initialize {
    /// Identifier of the first tradable asset.
    pub mint_x: u64,
    /// Identifier of the second tradable asset.
    pub mint_y: u64,
}

impl Initialize {
    /// Builds the pool record for this asset pair: unlocked, with the
    /// fee, optional authority and derivation metadata fixed for the
    /// pool's lifetime. The caller supplies a valid basis-point fee and
    /// two distinct assets; both are immutable afterwards, so the record
    /// stays well-formed through every later operation.
    pub fn init(
        &self,
        seed: u64,
        authority: Option<u64>,
        fee: u16,
        config_bump: u8,
        lp_bump: u8,
    ) -> (c: Config)
        requires
            fee <= MAX_FEE_BPS,
            self.mint_x != self.mint_y,
        ensures
            c == (Config {
                seed,
                authority,
                mint_x: self.mint_x,
                mint_y: self.mint_y,
                fee,
                locked: false,
                config_bump,
                lp_bump,
            }),
            c.wf(),
            !c.locked,
    {
        Config {
            seed,
            authority,
            mint_x: self.mint_x,
            mint_y: self.mint_y,
            fee,
            locked: false,
            config_bump,
            lp_bump,
        }
    }
}

} // verus!
