use vstd::prelude::*;

verus! {

/// Failure kinds surfaced by the curve functions and operation handlers.
///
/// None of these are retryable by the core itself; on any failure an
/// operation emits zero instructions.
#[derive(Clone, Copy, Debug, PartialEq, Eq, Structural)]
pub enum AmmError {
    /// A requested amount is zero, or a computed amount resolves to zero
    /// where it must not.
    InvalidAmount,
    /// A trading or liquidity operation, or a lock, was attempted while
    /// the pool is locked.
    PoolLocked,
    /// An unlock was attempted while the pool is already unlocked.
    PoolUnlocked,
    /// A lock or unlock was attempted by a caller other than the pool's
    /// configured authority.
    InvalidAuthority,
    /// A computed amount violates the caller's declared bound: above the
    /// maximum on deposit, below the minimum on withdraw or swap.
    SlippageExceeded,
    /// The caller's holdings do not cover the requested burn.
    InsufficientBalance,
    /// A scaled result does not fit the native 64-bit width, or the unit
    /// supply needed as a divisor is zero.
    PrecisionError,
    /// A swap was attempted against a pool with an empty reserve.
    CurveError,
}

} // verus!
