//! Constant-product curve engine: the amount computations behind deposit,
//! withdraw and swap.
//!
//! All arithmetic is deterministic integer arithmetic over `u128`
//! intermediates, with explicit rounding that always favours the pool:
//! deposits round the collected amounts up, withdrawals and swap payouts
//! round down. The central guarantee, proved in
//! [`lemma_swap_product_non_decreasing`], is that a swap never decreases
//! the product of the two reserves.

use vstd::prelude::*;
use vstd::arithmetic::div_mod::{
    lemma_div_is_ordered, lemma_div_multiples_vanish, lemma_div_pos_is_pos,
    lemma_fundamental_div_mod, lemma_mod_bound,
};
use vstd::arithmetic::mul::{lemma_mul_inequality, lemma_mul_is_commutative};

use crate::error::AmmError;
use crate::state::FEE_BPS_BOUND;

verus! {

/// Ceiling division for non-negative operands.
pub open spec fn spec_ceil_div(a: int, b: int) -> int {
    (a + b - 1) / b
}

/// Tokens a deposit of `amount` LP must bring in on the side holding
/// `reserve`, given the current LP `supply`: the proportional share
/// `reserve * amount / supply`, rounded up so the pool never under-collects.
pub open spec fn spec_deposit_share(reserve: u64, supply: u64, amount: u64) -> int {
    spec_ceil_div(reserve * amount, supply as int)
}

/// Tokens a burn of `amount` LP pays out on the side holding `reserve`:
/// the proportional share rounded down, so the pool never over-pays.
pub open spec fn spec_withdraw_share(reserve: u64, supply: u64, amount: u64) -> int {
    (reserve * amount) / (supply as int)
}

/// Portion of a swap input that trades after the fee is retained, with the
/// fee rounded in the pool's favour.
pub open spec fn spec_effective_input(amount: u64, fee_bps: u16) -> int {
    (amount * (FEE_BPS_BOUND - fee_bps)) / (FEE_BPS_BOUND as int)
}

/// Output of a single-direction swap of `amount` into the side holding
/// `reserve_in`, paid from the side holding `reserve_out`.
pub open spec fn spec_swap_output(
    reserve_in: u64,
    reserve_out: u64,
    fee_bps: u16,
    amount: u64,
) -> int {
    (reserve_out * spec_effective_input(amount, fee_bps)) / (reserve_in as int
        + spec_effective_input(amount, fee_bps))
}

/// Floor of `a * b / d` over `u128` intermediates; the caller shows the
/// quotient fits a `u64`.
fn mul_div_floor(a: u64, b: u64, d: u64) -> (q: u64)
    requires
        d > 0,
        (a * b) / (d as int) <= u64::MAX,
    ensures
        q == (a * b) / (d as int),
{
    proof {
        assert((a as int) * (b as int) <= (u64::MAX as int) * (u64::MAX as int))
            by (nonlinear_arith)
            requires
                a <= u64::MAX,
                b <= u64::MAX,
        ;
        assert((u64::MAX as int) * (u64::MAX as int) < u128::MAX as int) by (nonlinear_arith);
    }
    let prod: u128 = (a as u128) * (b as u128);
    let q: u128 = prod / (d as u128);
    q as u64
}

/// Ceiling of `a * b / d` over `u128` intermediates, or an arithmetic
/// failure when the result does not fit a `u64`.
fn mul_div_ceil(a: u64, b: u64, d: u64) -> (r: Result<u64, AmmError>)
    requires
        d > 0,
    ensures
        r is Ok <==> spec_ceil_div(a * b, d as int) <= u64::MAX,
        r is Ok ==> r->Ok_0 == spec_ceil_div(a * b, d as int),
        r is Err ==> r == Err::<u64, AmmError>(AmmError::ArithmeticFailure),
{
    proof {
        assert((a as int) * (b as int) <= (u64::MAX as int) * (u64::MAX as int))
            by (nonlinear_arith)
            requires
                a <= u64::MAX,
                b <= u64::MAX,
        ;
        assert((u64::MAX as int) * (u64::MAX as int) + (u64::MAX as int) < u128::MAX as int)
            by (nonlinear_arith);
        assert((a * b) + d - 1 >= 0) by (nonlinear_arith)
            requires
                a >= 0,
                b >= 0,
                d > 0,
        ;
    }
    let prod: u128 = (a as u128) * (b as u128);
    let num: u128 = prod + ((d - 1) as u128);
    let q: u128 = num / (d as u128);
    if q > (u64::MAX as u128) {
        Err(AmmError::ArithmeticFailure)
    } else {
        Ok(q as u64)
    }
}

/// Proportional deposit amounts for a non-empty pool: the `(x, y)` the
/// pool collects when `amount` LP is to be minted against `supply`, both
/// rounded up. Fails only when a share overflows a `u64`.
pub fn deposit_amounts(reserve_x: u64, reserve_y: u64, supply: u64, amount: u64) -> (r: Result<
    (u64, u64),
    AmmError,
>)
    requires
        supply > 0,
    ensures
        r is Ok <==> spec_deposit_share(reserve_x, supply, amount) <= u64::MAX
            && spec_deposit_share(reserve_y, supply, amount) <= u64::MAX,
        r is Ok ==> r->Ok_0.0 == spec_deposit_share(reserve_x, supply, amount),
        r is Ok ==> r->Ok_0.1 == spec_deposit_share(reserve_y, supply, amount),
        r is Err ==> r == Err::<(u64, u64), AmmError>(AmmError::ArithmeticFailure),
{
    let x = mul_div_ceil(reserve_x, amount, supply)?;
    let y = mul_div_ceil(reserve_y, amount, supply)?;
    Ok((x, y))
}

/// A proportional share paid out for a partial burn never exceeds the
/// reserve it is drawn from.
proof fn lemma_withdraw_share_bounded(reserve: u64, supply: u64, amount: u64)
    requires
        supply > 0,
        amount <= supply,
    ensures
        0 <= spec_withdraw_share(reserve, supply, amount) <= reserve,
{
    lemma_mul_inequality(amount as int, supply as int, reserve as int);
    lemma_mul_is_commutative(amount as int, reserve as int);
    lemma_mul_is_commutative(supply as int, reserve as int);
    lemma_div_is_ordered(reserve * amount, reserve * supply, supply as int);
    lemma_div_multiples_vanish(reserve as int, supply as int);
    lemma_div_pos_is_pos(reserve * amount, supply as int);
}

/// Proportional withdraw amounts for a partial burn: the `(x, y)` paid out
/// when `amount` LP of `supply` is burned, both rounded down. Handed a burn
/// above the whole supply it reports invalid inputs.
pub fn withdraw_amounts(reserve_x: u64, reserve_y: u64, supply: u64, amount: u64) -> (r: Result<
    (u64, u64),
    AmmError,
>)
    requires
        supply > 0,
    ensures
        amount > supply ==> r == Err::<(u64, u64), AmmError>(AmmError::ArithmeticFailure),
        amount <= supply ==> r is Ok && r->Ok_0.0 == spec_withdraw_share(
            reserve_x,
            supply,
            amount,
        ) && r->Ok_0.1 == spec_withdraw_share(reserve_y, supply, amount),
        r is Ok ==> r->Ok_0.0 <= reserve_x && r->Ok_0.1 <= reserve_y,
{
    if amount > supply {
        return Err(AmmError::ArithmeticFailure);
    }
    proof {
        lemma_withdraw_share_bounded(reserve_x, supply, amount);
        lemma_withdraw_share_bounded(reserve_y, supply, amount);
    }
    let x = mul_div_floor(reserve_x, amount, supply);
    let y = mul_div_floor(reserve_y, amount, supply);
    Ok((x, y))
}

/// The after-fee portion of a swap input is between zero and the input.
pub proof fn lemma_effective_input_bounds(amount: u64, fee_bps: u16)
    requires
        fee_bps < FEE_BPS_BOUND,
    ensures
        0 <= spec_effective_input(amount, fee_bps) <= amount,
{
    let bps = FEE_BPS_BOUND as int;
    let keep = bps - fee_bps;
    assert(amount * keep >= 0) by (nonlinear_arith)
        requires
            amount >= 0,
            keep > 0,
    ;
    assert(amount * keep <= amount * bps) by (nonlinear_arith)
        requires
            amount >= 0,
            0 < keep <= bps,
    ;
    lemma_div_pos_is_pos(amount * keep, bps);
    lemma_div_is_ordered(amount * keep, amount * bps, bps);
    lemma_mul_is_commutative(amount as int, bps);
    lemma_div_multiples_vanish(amount as int, bps);
}

/// A swap's payout never exceeds the reserve it is drawn from.
pub proof fn lemma_swap_output_bounded(reserve_in: u64, reserve_out: u64, fee_bps: u16, amount: u64)
    requires
        fee_bps < FEE_BPS_BOUND,
        reserve_in > 0,
    ensures
        0 <= spec_swap_output(reserve_in, reserve_out, fee_bps, amount) <= reserve_out,
{
    lemma_effective_input_bounds(amount, fee_bps);
    let e = spec_effective_input(amount, fee_bps);
    let ri = reserve_in as int;
    let ro = reserve_out as int;
    assert(ro * e >= 0) by (nonlinear_arith)
        requires
            ro >= 0,
            e >= 0,
    ;
    assert(ro * e <= ro * (ri + e)) by (nonlinear_arith)
        requires
            ro >= 0,
            ri > 0,
            e >= 0,
    ;
    lemma_div_pos_is_pos(ro * e, ri + e);
    lemma_div_is_ordered(ro * e, ro * (ri + e), ri + e);
    lemma_mul_is_commutative(ro, ri + e);
    lemma_div_multiples_vanish(ro, ri + e);
}

/// Executes a single-direction swap: pulls exactly `amount` into the side
/// holding `reserve_in` and pays [`spec_swap_output`] from the other side.
/// Fails only on an empty reserve or when the input side would overflow.
pub fn swap_amounts(reserve_in: u64, reserve_out: u64, fee_bps: u16, amount: u64) -> (r: Result<
    (u64, u64),
    AmmError,
>)
    requires
        fee_bps < FEE_BPS_BOUND,
    ensures
        r is Ok <==> reserve_in > 0 && reserve_out > 0 && reserve_in + amount <= u64::MAX,
        r is Ok ==> r->Ok_0.0 == amount,
        r is Ok ==> r->Ok_0.1 == spec_swap_output(reserve_in, reserve_out, fee_bps, amount),
        r is Ok ==> r->Ok_0.1 <= reserve_out,
        r is Err ==> r == Err::<(u64, u64), AmmError>(AmmError::ArithmeticFailure),
{
    if reserve_in == 0 || reserve_out == 0 {
        return Err(AmmError::ArithmeticFailure);
    }
    if amount > u64::MAX - reserve_in {
        return Err(AmmError::ArithmeticFailure);
    }
    proof {
        lemma_effective_input_bounds(amount, fee_bps);
    }
    let effective = mul_div_floor(amount, (FEE_BPS_BOUND - fee_bps) as u64, FEE_BPS_BOUND as u64);
    proof {
        lemma_swap_output_bounded(reserve_in, reserve_out, fee_bps, amount);
    }
    let out = mul_div_floor(reserve_out, effective, reserve_in + effective);
    Ok((amount, out))
}

/// After a swap the product of the reserves never decreases: the fee and
/// the payout rounding both accrue to the pool, never deplete it. The
/// input side ends at `reserve_in + amount`, the output side at
/// `reserve_out` less the payout, and their product still covers the
/// original `reserve_in * reserve_out`.
pub proof fn lemma_swap_product_non_decreasing(
    reserve_in: u64,
    reserve_out: u64,
    fee_bps: u16,
    amount: u64,
)
    requires
        fee_bps < FEE_BPS_BOUND,
        reserve_in > 0,
        reserve_out > 0,
        reserve_in + amount <= u64::MAX,
    ensures
        (reserve_in + amount) * (reserve_out - spec_swap_output(
            reserve_in,
            reserve_out,
            fee_bps,
            amount,
        )) >= reserve_in * reserve_out,
{
    lemma_effective_input_bounds(amount, fee_bps);
    lemma_swap_output_bounded(reserve_in, reserve_out, fee_bps, amount);
    let ri = reserve_in as int;
    let ro = reserve_out as int;
    let a = amount as int;
    let e = spec_effective_input(amount, fee_bps);
    let out = spec_swap_output(reserve_in, reserve_out, fee_bps, amount);
    lemma_fundamental_div_mod(ro * e, ri + e);
    lemma_mod_bound(ro * e, ri + e);
    assert((ri + e) * out <= ro * e);
    assert((ri + a) * ((ri + e) * out) <= (ri + a) * (ro * e)) by (nonlinear_arith)
        requires
            (ri + e) * out <= ro * e,
            ri + a >= 0,
    ;
    assert((ri + a) * (ro * e) <= (ro * a) * (ri + e)) by (nonlinear_arith)
        requires
            0 <= e <= a,
            ri > 0,
            ro > 0,
    ;
    assert(((ri + a) * out) * (ri + e) == (ri + a) * ((ri + e) * out)) by (nonlinear_arith);
    assert((ri + a) * out <= ro * a) by (nonlinear_arith)
        requires
            ((ri + a) * out) * (ri + e) <= (ro * a) * (ri + e),
            ri + e > 0,
    ;
    assert((ri + a) * (ro - out) >= ri * ro) by (nonlinear_arith)
        requires
            (ri + a) * out <= ro * a,
            ri > 0,
            ro > 0,
            a >= 0,
            out >= 0,
    ;
}

/// Deposit cost is monotonic in the requested LP amount: asking for more
/// LP never costs fewer reserve tokens.
pub proof fn lemma_deposit_share_monotonic(reserve: u64, supply: u64, a1: u64, a2: u64)
    requires
        supply > 0,
        a1 <= a2,
    ensures
        spec_deposit_share(reserve, supply, a1) <= spec_deposit_share(reserve, supply, a2),
{
    lemma_mul_inequality(a1 as int, a2 as int, reserve as int);
    lemma_mul_is_commutative(a1 as int, reserve as int);
    lemma_mul_is_commutative(a2 as int, reserve as int);
    lemma_div_is_ordered(
        reserve * a1 + supply - 1,
        reserve * a2 + supply - 1,
        supply as int,
    );
}

/// Withdraw payout is monotonic in the burned LP amount: burning more LP
/// never pays out fewer reserve tokens.
pub proof fn lemma_withdraw_share_monotonic(reserve: u64, supply: u64, a1: u64, a2: u64)
    requires
        supply > 0,
        a1 <= a2,
    ensures
        spec_withdraw_share(reserve, supply, a1) <= spec_withdraw_share(reserve, supply, a2),
{
    lemma_mul_inequality(a1 as int, a2 as int, reserve as int);
    lemma_mul_is_commutative(a1 as int, reserve as int);
    lemma_mul_is_commutative(a2 as int, reserve as int);
    lemma_div_is_ordered(reserve * a1, reserve * a2, supply as int);
}

/// A swap's payout is non-increasing in the fee rate: raising the fee
/// never pays the trader more.
pub proof fn lemma_swap_output_fee_monotonic(
    reserve_in: u64,
    reserve_out: u64,
    fee1: u16,
    fee2: u16,
    amount: u64,
)
    requires
        fee1 <= fee2 < FEE_BPS_BOUND,
        reserve_in > 0,
    ensures
        spec_swap_output(reserve_in, reserve_out, fee2, amount) <= spec_swap_output(
            reserve_in,
            reserve_out,
            fee1,
            amount,
        ),
{
    let bps = FEE_BPS_BOUND as int;
    let ri = reserve_in as int;
    let ro = reserve_out as int;
    lemma_effective_input_bounds(amount, fee1);
    lemma_effective_input_bounds(amount, fee2);
    let e1 = spec_effective_input(amount, fee1);
    let e2 = spec_effective_input(amount, fee2);
    assert(amount * (bps - fee2) <= amount * (bps - fee1)) by (nonlinear_arith)
        requires
            fee1 <= fee2,
            amount >= 0,
    ;
    lemma_div_is_ordered(amount * (bps - fee2), amount * (bps - fee1), bps);
    lemma_swap_output_bounded(reserve_in, reserve_out, fee2, amount);
    let q2 = spec_swap_output(reserve_in, reserve_out, fee2, amount);
    lemma_fundamental_div_mod(ro * e2, ri + e2);
    lemma_mod_bound(ro * e2, ri + e2);
    assert((ri + e2) * q2 <= ro * e2);
    assert(q2 * (ri + e1) <= ro * e1) by (nonlinear_arith)
        requires
            (ri + e2) * q2 <= ro * e2,
            0 <= e2 <= e1,
            0 <= q2 <= ro,
            ri > 0,
    ;
    lemma_mul_is_commutative(q2, ri + e1);
    lemma_div_multiples_vanish(q2, ri + e1);
    lemma_div_is_ordered((ri + e1) * q2, ro * e1, ri + e1);
}

} // verus!
