//! The step amount solver: the input and output amounts that move the pool
//! from its current price to a target price. The amounts are those of the
//! pool's own step rule; this module supplies its inputs and refuses the
//! snapshots on which the rule is not defined.

use crate::error::ErrorCode;
use crate::wide::{mul_wide, pow2_128, pow2_64};
use vstd::prelude::*;

verus! {

/// The fee rates of the pool are parts of this denominator.
pub const FEE_RATE_DENOMINATOR: u32 = 1_000_000;

/// The largest product of liquidity and price distance whose token-1 amount
/// fits in 64 bits: `(2^64 - 1) * 2^64`.
pub const MAX_TOKEN_1_PRODUCT: u128 = 0xFFFF_FFFF_FFFF_FFFF_0000_0000_0000_0000;

const BASE: u128 = 0x1_0000_0000_0000_0000;

/// What was read of the pool immediately before a leg.
#[derive(Clone, Copy, Debug, PartialEq, Eq, Structural)]
pub struct PoolSnapshot {
    /// Current price, as a square root in 64.64 fixed point.
    pub sqrt_price_x64: u128,
    /// Liquidity in range at the current price.
    pub liquidity: u128,
    /// Trade fee, in parts of `FEE_RATE_DENOMINATOR`.
    pub fee_rate: u32,
    /// When the snapshot was taken.
    pub timestamp: u32,
}

/// The outcome of one step of the pool's curve.
#[derive(Clone, Copy, Debug, PartialEq, Eq, Structural)]
pub struct SwapStep {
    /// The price after the step; it does not pass the target.
    pub sqrt_price_next_x64: u128,
    pub amount_in: u64,
    pub amount_out: u64,
    pub fee_amount: u64,
}

/// The amounts of a leg: what the step rule computed, and the least output
/// that is demanded of the pool.
#[derive(Clone, Copy, Debug, PartialEq, Eq, Structural)]
pub struct StepAmounts {
    pub amount_in: u64,
    pub amount_out: u64,
    pub minimum_amount_out: u64,
}

/// The smaller of two prices.
pub open spec fn lower(a: u128, b: u128) -> u128 {
    if a < b {
        a
    } else {
        b
    }
}

/// The larger of two prices.
pub open spec fn upper(a: u128, b: u128) -> u128 {
    if a < b {
        b
    } else {
        a
    }
}

/// The inputs on which the pool's step rule is defined for an exact-input
/// step between `current` and `target`:
/// both prices and the liquidity are positive, the fee rate is a proper
/// fraction, the token amounts over the whole distance fit in 64 bits, and,
/// for a falling price, the product of liquidity and price leaves room for
/// the rule's 256-bit intermediate values.
pub open spec fn step_computable(current: u128, target: u128, liquidity: u128, fee_rate: u32) -> bool {
    let lo = lower(current, target);
    let hi = upper(current, target);
    &&& 0 < lo
    &&& 0 < liquidity
    &&& fee_rate < FEE_RATE_DENOMINATOR
    &&& liquidity * (hi - lo) <= (pow2_64() - 1) * pow2_64()
    &&& (liquidity * (hi - lo)) * pow2_64() <= (pow2_64() - 1) * (lo * hi)
    &&& target < current ==> liquidity * current <= (pow2_64() - 2) * pow2_128()
}

/// Whether `product * 2^64 <= (2^64 - 1) * x`, where `x` is given by its upper
/// and lower 128 bits.
fn token_0_fits(product: u128, x_high: u128, x_low: u128) -> (fits: bool)
    requires
        product <= MAX_TOKEN_1_PRODUCT,
    ensures
        fits == (product * pow2_64() <= (pow2_64() - 1) * (x_high * pow2_128() + x_low)),
{
    proof {
        assert(pow2_64() == 0x1_0000_0000_0000_0000int);
        assert(pow2_128() == 0x1_0000_0000_0000_0000_0000_0000_0000_0000int);
        assert(product * pow2_64() == product * 0x1_0000_0000_0000_0000int);
        assert(x_high * pow2_128() == x_high * 0x1_0000_0000_0000_0000_0000_0000_0000_0000int);
        assert((pow2_64() - 1) * (x_high * pow2_128() + x_low) == 0xFFFF_FFFF_FFFF_FFFFint * (x_high
            * 0x1_0000_0000_0000_0000_0000_0000_0000_0000int + x_low));
    }
    if x_high >= 1 {
        return true;
    }
    if x_low < product {
        return false;
    }
    let room: u128 = x_low - product;
    let quotient: u128 = x_low / BASE;
    let needed: u128 = if x_low % BASE == 0 {
        quotient
    } else {
        quotient + 1
    };
    needed <= room
}

/// Whether `liquidity * price <= (2^64 - 2) * 2^128`.
fn price_update_fits(liquidity: u128, price: u128) -> (fits: bool)
    ensures
        fits == (liquidity * price <= (pow2_64() - 2) * pow2_128()),
{
    let (high, low) = mul_wide(liquidity, price);
    proof {
        assert(pow2_64() == 0x1_0000_0000_0000_0000int);
        assert(pow2_128() == 0x1_0000_0000_0000_0000_0000_0000_0000_0000int);
        assert(high * pow2_128() == high * 0x1_0000_0000_0000_0000_0000_0000_0000_0000int);
        assert((pow2_64() - 2) * pow2_128() == 0xFFFF_FFFF_FFFF_FFFEint
            * 0x1_0000_0000_0000_0000_0000_0000_0000_0000int);
    }
    high < BASE - 2 || (high == BASE - 2 && low == 0)
}

/// Decides `step_computable`.
pub fn is_step_computable(current: u128, target: u128, liquidity: u128, fee_rate: u32) -> (ok: bool)
    ensures
        ok == step_computable(current, target, liquidity, fee_rate),
{
    let lo: u128 = if current < target {
        current
    } else {
        target
    };
    let hi: u128 = if current < target {
        target
    } else {
        current
    };
    if lo == 0 || liquidity == 0 || fee_rate >= FEE_RATE_DENOMINATOR {
        return false;
    }
    let distance: u128 = hi - lo;
    let product: u128 = match liquidity.checked_mul(distance) {
        Some(p) => p,
        None => {
            return false;
        },
    };
    if product > MAX_TOKEN_1_PRODUCT {
        return false;
    }
    let (x_high, x_low) = mul_wide(lo, hi);
    if !token_0_fits(product, x_high, x_low) {
        return false;
    }
    if target < current {
        price_update_fits(liquidity, current)
    } else {
        true
    }
}

/// What the pool's step rule gives: the next price, the input amount, the
/// output amount and the fee, in this order.
pub uninterp spec fn pool_swap_step(
    current: u128,
    target: u128,
    liquidity: u128,
    amount_remaining: u64,
    fee_rate: u32,
    is_base_input: bool,
    zero_for_one: bool,
) -> (u128, u64, u64, u64);

/// The step that the pool's rule gives on the given inputs.
pub open spec fn pool_step(
    current: u128,
    target: u128,
    liquidity: u128,
    amount_remaining: u64,
    fee_rate: u32,
    zero_for_one: bool,
) -> SwapStep {
    let step = pool_swap_step(
        current,
        target,
        liquidity,
        amount_remaining,
        fee_rate,
        true,
        zero_for_one,
    );
    SwapStep {
        sqrt_price_next_x64: step.0,
        amount_in: step.1,
        amount_out: step.2,
        fee_amount: step.3,
    }
}

/// `swap_math::compute_swap_step` of the pool's crate, for a step with exact
/// input in the direction of the target. The contract claims that the step
/// is a function of the arguments, that the next price lies between the
/// current price and the target, and that input and fee together stay
/// within the amount that remains. The preconditions keep away from the
/// inputs on which the pool's arithmetic stops: a price or liquidity of
/// zero, a fee rate that is no proper fraction, an amount over the whole
/// distance that does not fit in 64 bits, and a product that leaves the
/// 256 bits in which the next price is computed.
#[verifier::external_body]
pub(crate) fn compute_swap_step(
    current: u128,
    target: u128,
    liquidity: u128,
    amount_remaining: u64,
    fee_rate: u32,
    is_base_input: bool,
    zero_for_one: bool,
) -> (step: SwapStep)
    requires
        is_base_input,
        zero_for_one == (target < current),
        step_computable(current, target, liquidity, fee_rate),
    ensures
        (step.sqrt_price_next_x64, step.amount_in, step.amount_out, step.fee_amount)
            == pool_swap_step(
            current,
            target,
            liquidity,
            amount_remaining,
            fee_rate,
            is_base_input,
            zero_for_one,
        ),
        lower(current, target) <= step.sqrt_price_next_x64 <= upper(current, target),
        step.amount_in + step.fee_amount <= amount_remaining,
{
    let s = raydium_amm_v3::libraries::swap_math::compute_swap_step(
        current, target, liquidity, amount_remaining, fee_rate, is_base_input, zero_for_one,
    );
    SwapStep {
        sqrt_price_next_x64: s.sqrt_price_next_x64,
        amount_in: s.amount_in,
        amount_out: s.amount_out,
        fee_amount: s.fee_amount,
    }
}

/// The inputs on which a step is solved: the direction is the one in which
/// the target lies, and the pool's rule is defined.
pub open spec fn step_solvable(snapshot: PoolSnapshot, target: u128, a_for_b: bool) -> bool {
    &&& a_for_b == (target < snapshot.sqrt_price_x64)
    &&& step_computable(snapshot.sqrt_price_x64, target, snapshot.liquidity, snapshot.fee_rate)
}

/// The bound on the input that is handed to the step rule: `max_in`, where
/// zero stands for no bound.
pub open spec fn spec_amount_remaining(max_in: u64) -> u64 {
    if max_in == 0 {
        u64::MAX
    } else {
        max_in
    }
}

/// The bound on the input that is handed to the step rule.
pub fn amount_remaining(max_in: u64) -> (bound: u64)
    ensures
        bound == spec_amount_remaining(max_in),
{
    if max_in == 0 {
        u64::MAX
    } else {
        max_in
    }
}

/// What `solve_step` returns.
pub open spec fn spec_solve_step(
    snapshot: PoolSnapshot,
    target: u128,
    a_for_b: bool,
    amount_remaining: u64,
) -> Result<SwapStep, ErrorCode> {
    if step_solvable(snapshot, target, a_for_b) {
        Ok(
            pool_step(
                snapshot.sqrt_price_x64,
                target,
                snapshot.liquidity,
                amount_remaining,
                snapshot.fee_rate,
                a_for_b,
            ),
        )
    } else {
        Err(ErrorCode::InvalidPoolData)
    }
}

/// Solves one step: the pool's own step from the snapshot's price towards
/// `target`, with at most `amount_remaining` of input. The step is the
/// pool's, unchanged: it does not pass the target, and its input and fee
/// stay within the bound. A snapshot on which the rule is not defined, or
/// a direction in which the target does not lie, is refused.
pub fn solve_step(
    snapshot: &PoolSnapshot,
    target: u128,
    a_for_b: bool,
    amount_remaining: u64,
) -> (solved: Result<SwapStep, ErrorCode>)
    ensures
        solved == spec_solve_step(*snapshot, target, a_for_b, amount_remaining),
        solved is Ok <==> step_solvable(*snapshot, target, a_for_b),
        solved matches Ok(step) ==> {
            &&& lower(snapshot.sqrt_price_x64, target) <= step.sqrt_price_next_x64 <= upper(
                snapshot.sqrt_price_x64,
                target,
            )
            &&& step.amount_in + step.fee_amount <= amount_remaining
        },
{
    if a_for_b != (target < snapshot.sqrt_price_x64) {
        return Err(ErrorCode::InvalidPoolData);
    }
    if !is_step_computable(snapshot.sqrt_price_x64, target, snapshot.liquidity, snapshot.fee_rate) {
        return Err(ErrorCode::InvalidPoolData);
    }
    let step = compute_swap_step(
        snapshot.sqrt_price_x64,
        target,
        snapshot.liquidity,
        amount_remaining,
        snapshot.fee_rate,
        true,
        a_for_b,
    );
    Ok(step)
}

/// The amounts of a leg, from the step that the pool's rule gave: the
/// step's own input and output, and as the least output to demand the
/// smaller of the step's output and the caller's bound.
pub open spec fn spec_step_amounts(step: SwapStep, min_out: u64) -> StepAmounts {
    StepAmounts {
        amount_in: step.amount_in,
        amount_out: step.amount_out,
        minimum_amount_out: if step.amount_out < min_out {
            step.amount_out
        } else {
            min_out
        },
    }
}

/// The amounts of a leg, from the step that the pool's rule gave.
pub fn step_amounts(step: &SwapStep, min_out: u64) -> (amounts: StepAmounts)
    ensures
        amounts == spec_step_amounts(*step, min_out),
        amounts.amount_in == step.amount_in,
        amounts.amount_out == step.amount_out,
        amounts.minimum_amount_out <= min_out,
        amounts.minimum_amount_out <= step.amount_out,
{
    let minimum_amount_out: u64 = if step.amount_out < min_out {
        step.amount_out
    } else {
        min_out
    };
    StepAmounts { amount_in: step.amount_in, amount_out: step.amount_out, minimum_amount_out }
}

} // verus!
