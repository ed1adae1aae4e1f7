use vstd::prelude::*;

use crate::errors::AmmError;
use crate::state::Config;

verus! {

/// Administrative lock and unlock of one pool: the identity of the
/// calling party and the pool record it acts on.
pub struct Update {
    /// Identity of the calling party.
    pub user: u64,
    /// The pool record being administered.
    pub config: Config,
}

impl Update {
    /// Whether the caller is the pool's configured authority. A pool
    /// whose authority is `None` is permissionless: no caller ever
    /// passes, so such a pool can never be locked again.
    pub open spec fn spec_is_authority(self) -> bool {
        self.config.authority == Some(self.user)
    }

    /// Lock transition: allowed only from the unlocked state and only to
    /// the configured authority. Locking is not idempotent: an already
    /// locked pool fails with `PoolLocked` whoever asks.
    pub fn lock(&mut self) -> (r: Result<(), AmmError>)
        ensures
            old(self).config.locked ==> r == Err::<(), AmmError>(AmmError::PoolLocked)
                && *final(self) == *old(self),
            !old(self).config.locked && !old(self).spec_is_authority() ==> r == Err::<
                (),
                AmmError,
            >(AmmError::InvalidAuthority) && *final(self) == *old(self),
            !old(self).config.locked && old(self).spec_is_authority() ==> r == Ok::<
                (),
                AmmError,
            >(()) && final(self).user == old(self).user && final(self).config == (Config {
                locked: true,
                ..old(self).config
            }),
    {
        if self.config.locked {
            return Err(AmmError::PoolLocked);
        }
        let authorized = match self.config.authority {
            Some(a) => a == self.user,
            None => false,
        };
        if !authorized {
            return Err(AmmError::InvalidAuthority);
        }
        self.config.locked = true;
        Ok(())
    }

    /// Unlock transition, the mirror image of `lock`: allowed only from
    /// the locked state and only to the configured authority; an already
    /// unlocked pool fails with `PoolUnlocked` whoever asks.
    pub fn unlock(&mut self) -> (r: Result<(), AmmError>)
        ensures
            !old(self).config.locked ==> r == Err::<(), AmmError>(AmmError::PoolUnlocked)
                && *final(self) == *old(self),
            old(self).config.locked && !old(self).spec_is_authority() ==> r == Err::<
                (),
                AmmError,
            >(AmmError::InvalidAuthority) && *final(self) == *old(self),
            old(self).config.locked && old(self).spec_is_authority() ==> r == Ok::<
                (),
                AmmError,
            >(()) && final(self).user == old(self).user && final(self).config == (Config {
                locked: false,
                ..old(self).config
            }),
    {
        if !self.config.locked {
            return Err(AmmError::PoolUnlocked);
        }
        let authorized = match self.config.authority {
            Some(a) => a == self.user,
            None => false,
        };
        if !authorized {
            return Err(AmmError::InvalidAuthority);
        }
        self.config.locked = false;
        Ok(())
    }
}

} // verus!
