use vstd::prelude::*;
use vstd::arithmetic::div_mod::{
    lemma_div_is_ordered, lemma_fundamental_div_mod, lemma_mod_division_less_than_divisor,
};
use vstd::arithmetic::mul::{
    lemma_mul_is_distributive_add, lemma_mul_nonnegative, lemma_mul_upper_bound,
};

use crate::errors::AmmError;
use crate::math::mul_div_floor;

verus! {

/// Share of `reserve` backing `units` pool-ownership units out of a total
/// `supply` of units: floor(units * reserve / supply).
pub open spec fn spec_proportional(units: int, reserve: int, supply: int) -> int {
    units * reserve / supply
}

/// Input remaining after the trading fee is discounted:
/// floor(amount_in * (10_000 - fee_bps) / 10_000).
pub open spec fn spec_fee_discounted(amount_in: int, fee_bps: int) -> int {
    amount_in * (10_000 - fee_bps) / 10_000
}

/// Constant-product swap output for an effective (fee-discounted) input:
/// floor(reserve_out * amount_in_eff / (reserve_in + amount_in_eff)).
///
/// This is the one canonical output formula of the crate. Its floor
/// rounding is in the pool's favor, which is what makes the product of
/// the reserves non-decreasing under every swap (see
/// [`lemma_swap_preserves_product`]).
pub open spec fn spec_swap_out(reserve_in: int, reserve_out: int, amount_in_eff: int) -> int {
    reserve_out * amount_in_eff / (reserve_in + amount_in_eff)
}

/// Floor-division decomposition of `a / d` for non-negative operands: the
/// quotient is non-negative and the dividend lies within one divisor of
/// the quotient scaled back up.
proof fn lemma_floor_div(a: int, d: int)
    requires
        0 <= a,
        0 < d,
    ensures
        0 <= a / d,
        d * (a / d) <= a,
        a < d * (a / d + 1),
{
    lemma_fundamental_div_mod(a, d);
    lemma_mod_division_less_than_divisor(a, d);
    lemma_mul_is_distributive_add(d, a / d, 1);
    assert(0 <= a / d) by (nonlinear_arith)
        requires
            0 <= a,
            0 < d,
            a == d * (a / d) + a % d,
            0 <= a % d < d,
    ;
}

/// The fee-discounted input is never negative and never exceeds the raw
/// input.
pub proof fn lemma_fee_discount_bounds(amount_in: int, fee_bps: int)
    requires
        0 <= amount_in,
        0 <= fee_bps <= 10_000,
    ensures
        0 <= spec_fee_discounted(amount_in, fee_bps) <= amount_in,
{
    let m = 10_000 - fee_bps;
    lemma_mul_nonnegative(amount_in, m);
    lemma_floor_div(amount_in * m, 10_000);
    let e = spec_fee_discounted(amount_in, fee_bps);
    assert(e <= amount_in) by (nonlinear_arith)
        requires
            10_000 * e <= amount_in * m,
            0 <= m <= 10_000,
            0 <= amount_in,
            0 <= e,
    ;
}

/// The swap output is never negative, never exceeds the outgoing reserve,
/// and leaves a non-empty outgoing reserve strictly positive.
pub proof fn lemma_swap_out_bounds(reserve_in: int, reserve_out: int, amount_in_eff: int)
    requires
        0 < reserve_in,
        0 <= reserve_out,
        0 <= amount_in_eff,
    ensures
        0 <= spec_swap_out(reserve_in, reserve_out, amount_in_eff) <= reserve_out,
        0 < reserve_out ==> spec_swap_out(reserve_in, reserve_out, amount_in_eff) < reserve_out,
{
    let denom = reserve_in + amount_in_eff;
    lemma_mul_nonnegative(reserve_out, amount_in_eff);
    lemma_floor_div(reserve_out * amount_in_eff, denom);
    let out = spec_swap_out(reserve_in, reserve_out, amount_in_eff);
    assert(out <= reserve_out && (0 < reserve_out ==> out < reserve_out)) by (nonlinear_arith)
        requires
            denom == reserve_in + amount_in_eff,
            denom * out <= reserve_out * amount_in_eff,
            0 < reserve_in,
            0 <= reserve_out,
            0 <= amount_in_eff,
            0 <= out,
    ;
}

/// Invariant preservation: a swap moves the full input into the incoming
/// reserve but pays out only the floor-rounded constant-product output,
/// so the product of the reserves never decreases. With a positive fee
/// the product strictly grows whenever the discount bites; with a zero
/// fee it is preserved up to rounding, never reduced.
pub proof fn lemma_swap_preserves_product(
    reserve_in: int,
    reserve_out: int,
    amount_in: int,
    fee_bps: int,
)
    requires
        0 < reserve_in,
        0 < reserve_out,
        0 <= amount_in,
        0 <= fee_bps <= 10_000,
    ensures
        ({
            let eff = spec_fee_discounted(amount_in, fee_bps);
            let out = spec_swap_out(reserve_in, reserve_out, eff);
            (reserve_in + amount_in) * (reserve_out - out) >= reserve_in * reserve_out
        }),
{
    let eff = spec_fee_discounted(amount_in, fee_bps);
    let out = spec_swap_out(reserve_in, reserve_out, eff);
    lemma_fee_discount_bounds(amount_in, fee_bps);
    lemma_mul_nonnegative(reserve_out, eff);
    lemma_floor_div(reserve_out * eff, reserve_in + eff);
    lemma_swap_out_bounds(reserve_in, reserve_out, eff);
    assert((reserve_in + amount_in) * (reserve_out - out) >= reserve_in * reserve_out)
        by (nonlinear_arith)
        requires
            (reserve_in + eff) * out <= reserve_out * eff,
            0 <= eff <= amount_in,
            0 <= out <= reserve_out,
            0 < reserve_in,
            0 < reserve_out,
    ;
}

/// Monotonicity: for fixed reserves and fee, a larger input never yields
/// a smaller swap output.
pub proof fn lemma_swap_output_monotone(
    reserve_in: int,
    reserve_out: int,
    fee_bps: int,
    amount_a: int,
    amount_b: int,
)
    requires
        0 < reserve_in,
        0 <= reserve_out,
        0 <= fee_bps <= 10_000,
        0 <= amount_a <= amount_b,
    ensures
        spec_swap_out(reserve_in, reserve_out, spec_fee_discounted(amount_a, fee_bps))
            <= spec_swap_out(reserve_in, reserve_out, spec_fee_discounted(amount_b, fee_bps)),
{
    let m = 10_000 - fee_bps;
    let ea = spec_fee_discounted(amount_a, fee_bps);
    let eb = spec_fee_discounted(amount_b, fee_bps);
    assert(amount_a * m <= amount_b * m) by (nonlinear_arith)
        requires
            0 <= amount_a <= amount_b,
            0 <= m,
    ;
    lemma_mul_nonnegative(amount_a, m);
    lemma_div_is_ordered(amount_a * m, amount_b * m, 10_000);
    lemma_fee_discount_bounds(amount_a, fee_bps);
    lemma_fee_discount_bounds(amount_b, fee_bps);
    lemma_swap_out_monotone_in_eff(reserve_in, reserve_out, ea, eb);
}

/// The constant-product output grows with the effective input.
proof fn lemma_swap_out_monotone_in_eff(reserve_in: int, reserve_out: int, eff_a: int, eff_b: int)
    requires
        0 < reserve_in,
        0 <= reserve_out,
        0 <= eff_a <= eff_b,
    ensures
        spec_swap_out(reserve_in, reserve_out, eff_a)
            <= spec_swap_out(reserve_in, reserve_out, eff_b),
{
    let qa = spec_swap_out(reserve_in, reserve_out, eff_a);
    let qb = spec_swap_out(reserve_in, reserve_out, eff_b);
    lemma_mul_nonnegative(reserve_out, eff_a);
    lemma_mul_nonnegative(reserve_out, eff_b);
    lemma_floor_div(reserve_out * eff_a, reserve_in + eff_a);
    lemma_floor_div(reserve_out * eff_b, reserve_in + eff_b);
    lemma_swap_out_bounds(reserve_in, reserve_out, eff_a);
    assert(qa <= qb) by (nonlinear_arith)
        requires
            (reserve_in + eff_a) * qa <= reserve_out * eff_a,
            reserve_out * eff_b < (reserve_in + eff_b) * (qb + 1),
            0 <= qa <= reserve_out,
            0 <= qb,
            0 <= eff_a <= eff_b,
            0 < reserve_in,
            0 <= reserve_out,
    ;
}

/// Rounding never creates value: a deposit priced against a live pool,
/// immediately undone by a withdrawal of the same unit amount against the
/// grown pool, hands back at most what was deposited. Stated for one
/// reserve; it applies to each of the pair.
pub proof fn lemma_deposit_withdraw_no_gain(reserve: int, supply: int, units: int)
    requires
        0 <= reserve,
        0 < supply,
        0 < units,
    ensures
        ({
            let deposited = spec_proportional(units, reserve, supply);
            spec_proportional(units, reserve + deposited, supply + units) <= deposited
        }),
{
    let d = spec_proportional(units, reserve, supply);
    let w = spec_proportional(units, reserve + d, supply + units);
    lemma_mul_nonnegative(units, reserve);
    lemma_floor_div(units * reserve, supply);
    lemma_mul_nonnegative(units, reserve + d);
    lemma_floor_div(units * (reserve + d), supply + units);
    assert(w <= d) by (nonlinear_arith)
        requires
            (supply + units) * w <= units * (reserve + d),
            units * reserve < supply * (d + 1),
            0 < supply,
            0 < units,
            0 <= reserve,
            0 <= d,
            0 <= w,
    ;
}

/// Amounts of the two assets backing `requested_units` fresh
/// pool-ownership units against the given reserves and supply.
///
/// On the first deposit (`unit_supply == 0`) the caller-supplied maximums
/// are taken verbatim: the first depositor sets the initial price.
/// Otherwise each amount is the floor-rounded proportional share, so the
/// pool never mints units backed by more assets than actually deposited;
/// a share that does not fit the native width fails with
/// `PrecisionError`.
pub fn deposit_amounts(
    reserve_x: u64,
    reserve_y: u64,
    unit_supply: u64,
    requested_units: u64,
    max_x: u64,
    max_y: u64,
) -> (r: Result<(u64, u64), AmmError>)
    ensures
        unit_supply == 0 ==> r == Ok::<(u64, u64), AmmError>((max_x, max_y)),
        unit_supply > 0 ==> ({
            let x = spec_proportional(requested_units as int, reserve_x as int, unit_supply as int);
            let y = spec_proportional(requested_units as int, reserve_y as int, unit_supply as int);
            if x <= u64::MAX && y <= u64::MAX {
                r == Ok::<(u64, u64), AmmError>((x as u64, y as u64))
            } else {
                r == Err::<(u64, u64), AmmError>(AmmError::PrecisionError)
            }
        }),
{
    if unit_supply == 0 {
        return Ok((max_x, max_y));
    }
    let x = match mul_div_floor(requested_units, reserve_x, unit_supply) {
        Ok(v) => v,
        Err(e) => {
            return Err(e);
        },
    };
    let y = match mul_div_floor(requested_units, reserve_y, unit_supply) {
        Ok(v) => v,
        Err(e) => {
            return Err(e);
        },
    };
    Ok((x, y))
}

/// Amounts of the two assets paid out for burning `burn_units`
/// pool-ownership units against the given reserves and supply.
///
/// Each amount is the floor-rounded proportional share, so the pool never
/// pays out more than the burned share. Fails with `PrecisionError` when
/// the unit supply is zero (there is nothing to redeem against) or when a
/// share does not fit the native width.
pub fn withdraw_amounts(
    reserve_x: u64,
    reserve_y: u64,
    unit_supply: u64,
    burn_units: u64,
) -> (r: Result<(u64, u64), AmmError>)
    ensures
        unit_supply == 0 ==> r == Err::<(u64, u64), AmmError>(AmmError::PrecisionError),
        unit_supply > 0 ==> ({
            let x = spec_proportional(burn_units as int, reserve_x as int, unit_supply as int);
            let y = spec_proportional(burn_units as int, reserve_y as int, unit_supply as int);
            if x <= u64::MAX && y <= u64::MAX {
                r == Ok::<(u64, u64), AmmError>((x as u64, y as u64))
            } else {
                r == Err::<(u64, u64), AmmError>(AmmError::PrecisionError)
            }
        }),
{
    if unit_supply == 0 {
        return Err(AmmError::PrecisionError);
    }
    let x = match mul_div_floor(burn_units, reserve_x, unit_supply) {
        Ok(v) => v,
        Err(e) => {
            return Err(e);
        },
    };
    let y = match mul_div_floor(burn_units, reserve_y, unit_supply) {
        Ok(v) => v,
        Err(e) => {
            return Err(e);
        },
    };
    Ok((x, y))
}

/// Constant-product swap output for a raw input of `amount_in` against
/// the given reserves, after discounting the trading fee.
///
/// Fails with `CurveError` while either reserve is empty and with
/// `InvalidAmount` when the computed output is zero. A successful output
/// is strictly positive and strictly below the outgoing reserve, so a
/// swap can never empty the pool.
pub fn swap_output(reserve_in: u64, reserve_out: u64, amount_in: u64, fee_bps: u16) -> (r: Result<
    u64,
    AmmError,
>)
    requires
        fee_bps <= 10_000,
    ensures
        reserve_in == 0 || reserve_out == 0 ==> r == Err::<u64, AmmError>(AmmError::CurveError),
        reserve_in > 0 && reserve_out > 0 ==> ({
            let out = spec_swap_out(
                reserve_in as int,
                reserve_out as int,
                spec_fee_discounted(amount_in as int, fee_bps as int),
            );
            if out == 0 {
                r == Err::<u64, AmmError>(AmmError::InvalidAmount)
            } else {
                r == Ok::<u64, AmmError>(out as u64)
            }
        }),
        r matches Ok(out) ==> 0 < out < reserve_out,
{
    if reserve_in == 0 || reserve_out == 0 {
        return Err(AmmError::CurveError);
    }
    proof {
        lemma_mul_upper_bound(amount_in as int, u64::MAX as int, (10_000 - fee_bps) as int, 10_000);
        lemma_fee_discount_bounds(amount_in as int, fee_bps as int);
    }
    let eff: u128 = (amount_in as u128) * ((10_000 - fee_bps) as u128) / 10_000;
    proof {
        lemma_mul_upper_bound(reserve_out as int, u64::MAX as int, eff as int, u64::MAX as int);
        lemma_swap_out_bounds(reserve_in as int, reserve_out as int, eff as int);
    }
    let out: u128 = (reserve_out as u128) * eff / ((reserve_in as u128) + eff);
    if out == 0 {
        Err(AmmError::InvalidAmount)
    } else {
        Ok(out as u64)
    }
}

} // verus!
