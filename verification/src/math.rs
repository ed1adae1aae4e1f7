use vstd::prelude::*;
use vstd::arithmetic::mul::lemma_mul_upper_bound;

use crate::errors::AmmError;

verus! {

/// Floor of `a * b / d`, computed in double width so the product itself
/// can never wrap, rejecting any quotient that does not fit back into the
/// native 64-bit width. Division truncates toward zero, which is floor for
/// these non-negative operands; results are therefore bit-reproducible
/// across independent re-execution.
pub fn mul_div_floor(a: u64, b: u64, d: u64) -> (r: Result<u64, AmmError>)
    requires
        d > 0,
    ensures
        a * b / (d as int) <= u64::MAX ==> r == Ok::<u64, AmmError>((a * b / (d as int)) as u64),
        a * b / (d as int) > u64::MAX ==> r == Err::<u64, AmmError>(AmmError::PrecisionError),
{
    proof {
        lemma_mul_upper_bound(a as int, u64::MAX as int, b as int, u64::MAX as int);
    }
    let wide: u128 = (a as u128) * (b as u128);
    let quotient: u128 = wide / (d as u128);
    if quotient > u64::MAX as u128 {
        Err(AmmError::PrecisionError)
    } else {
        Ok(quotient as u64)
    }
}

} // verus!
