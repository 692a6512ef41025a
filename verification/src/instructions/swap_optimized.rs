//! A candle traded from the custody account's holdings, each leg written
//! down by hand as the bytes and the list of accounts of the pool's swap.
//! A leg offers as much input as can be named and leaves it to the price
//! limit to stop the pool at the target.

pub use crate::error::ErrorCode;
pub use crate::instructions::swap::SwapCandle;

use crate::bytes::{le_value, read_le_u128};
use crate::candle::{is_leg, Candle, CandleState, Holdings};
use crate::instructions::swap::{custody_call, is_custody_call, pattern, spec_pattern};
use crate::invoker::{
    spec_account_metas, spec_swap_accounts, spec_swap_data, Instruction, SwapCall,
};
use crate::pubkey::Pubkey;
use crate::state::trading_account::TradingAccount;
use vstd::prelude::*;

verus! {

/// Where the pool keeps its current price in the bytes of its state.
pub const SQRT_PRICE_OFFSET: usize = 253;

/// The least length of the pool's state that holds the current price.
pub const POOL_DATA_MIN_LEN: usize = 269;

/// A call written down by hand, and the record whose seeds sign it.
#[derive(Debug, PartialEq, Eq)]
pub struct SignedInstruction {
    pub instruction: Instruction,
    pub signer: TradingAccount,
}

/// What the guard says of the accounts of a candle whose pool program is
/// only required to be a program that can be run.
pub open spec fn guard(ctx: SwapCandle, program: Pubkey) -> Result<(), ErrorCode> {
    ctx.bound(program)
}

/// Checks the accounts of the request before anything moves.
pub fn validate(ctx: &SwapCandle, program: &Pubkey) -> (checked: Result<(), ErrorCode>)
    ensures
        checked == guard(*ctx, *program),
{
    ctx.require_bound(program)
}

/// The current price in the bytes of the pool's state, if they hold one.
pub open spec fn spec_read_sqrt_price(pool_data: Seq<u8>) -> Result<u128, ErrorCode> {
    if pool_data.len() >= POOL_DATA_MIN_LEN {
        Ok(le_value(pool_data.subrange(SQRT_PRICE_OFFSET as int, POOL_DATA_MIN_LEN as int)) as u128)
    } else {
        Err(ErrorCode::InvalidPoolData)
    }
}

/// Reads the current price out of the bytes of the pool's state: sixteen
/// bytes, little-endian, from the fixed offset. Shorter data is refused.
pub fn read_sqrt_price(pool_data: &Vec<u8>) -> (price: Result<u128, ErrorCode>)
    ensures
        price == spec_read_sqrt_price(pool_data@),
        price is Ok <==> pool_data@.len() >= 269,
{
    match read_le_u128(pool_data, SQRT_PRICE_OFFSET) {
        Some(price) => Ok(price),
        None => Err(ErrorCode::InvalidPoolData),
    }
}

/// Whether `written` is the call of a leg of these accounts towards
/// `target_sqrt_price` as bytes and list: the whole range of the input is
/// offered as an exact input, no least output is demanded, the target is
/// the price limit, and the custody account signs.
pub open spec fn is_written_leg(
    written: SignedInstruction,
    ctx: SwapCandle,
    target_sqrt_price: u128,
    a_to_b: bool,
) -> bool {
    &&& written.instruction.program_id == ctx.raydium_program
    &&& written.instruction.accounts@ == spec_account_metas(
        spec_swap_accounts(ctx.spec_parties(), a_to_b),
        ctx.remaining_accounts@,
    )
    &&& written.instruction.data@ == spec_swap_data(u64::MAX, 0, target_sqrt_price, true)
    &&& written.signer == ctx.spec_signer()
}

/// The two ways of calling the pool agree: the leg written down by hand
/// holds the program, the list of accounts and the bytes of the structured
/// call with the same arguments, and is signed with the same seeds.
pub proof fn law_strategies_agree(
    written: SignedInstruction,
    call: SwapCall,
    ctx: SwapCandle,
    target_sqrt_price: u128,
    a_to_b: bool,
)
    requires
        is_written_leg(written, ctx, target_sqrt_price, a_to_b),
        is_custody_call(call, ctx, a_to_b, u64::MAX, 0, target_sqrt_price, true),
    ensures
        written.instruction.program_id == call.program,
        written.instruction.accounts@ == spec_account_metas(call.accounts, call.remaining_accounts@),
        written.instruction.data@ == spec_swap_data(
            call.amount,
            call.other_amount_threshold,
            call.sqrt_price_limit_x64,
            call.is_base_input,
        ),
        call.signer == Some(written.signer),
{
}

/// Writes down the call of one leg towards `target_sqrt_price`. The
/// slippage is not read.
pub fn swap_to_target_price(
    ctx: &SwapCandle,
    target_sqrt_price: u128,
    a_to_b: bool,
    slippage_bps: u16,
) -> (written: SignedInstruction)
    ensures
        is_written_leg(written, *ctx, target_sqrt_price, a_to_b),
{
    let call = custody_call(ctx, a_to_b, u64::MAX, 0, target_sqrt_price, true);
    SignedInstruction {
        instruction: call.instruction(),
        signer: TradingAccount { owner: ctx.user.key, bump: ctx.trading_account.data.bump },
    }
}

/// Opens a candle of three legs to the given targets over the custody
/// account's two holdings, with no bound on the input. The slippage is
/// not read.
pub fn swap_to_prices(ctx: &SwapCandle, target_sqrt_prices: [u128; 3], slippage_bps: u16) -> (candle:
    Candle)
    ensures
        candle.state == CandleState::Leg1,
        candle.open is None,
        candle.pattern.legs@ == spec_pattern(target_sqrt_prices, 0),
        candle.initial == ctx.spec_holdings(),
        candle.working == candle.initial,
        candle.results@.len() == 0,
        candle.wf(),
{
    let holdings = Holdings {
        wsol: ctx.trading_account_wsol.amount,
        token: ctx.trading_account_token.amount,
    };
    Candle::begin(pattern(target_sqrt_prices, 0), holdings)
}

/// Takes the candle into its next leg against the bytes of the pool's
/// state as read just before, and writes down the call of the leg. Where
/// the bytes hold no price the candle is ended.
pub fn next_leg(candle: &mut Candle, ctx: &SwapCandle, pool_data: &Vec<u8>, slippage_bps: u16) -> (
written: Result<SignedInstruction, ErrorCode>)
    ensures
        final(candle).pattern == old(candle).pattern,
        final(candle).initial == old(candle).initial,
        final(candle).working == old(candle).working,
        final(candle).results == old(candle).results,
        final(candle).spec_holdings() == old(candle).spec_holdings(),
        old(candle).wf() ==> final(candle).wf(),
        match written {
            Ok(leg) => {
                &&& spec_read_sqrt_price(pool_data@) matches Ok(current)
                &&& is_leg(old(candle).state)
                &&& old(candle).open is None
                &&& final(candle).state == old(candle).state
                &&& final(candle).open == Some(
                    old(candle).spec_opened(current, ctx.token_mint_a.key),
                )
                &&& is_written_leg(
                    leg,
                    *ctx,
                    old(candle).spec_opened(current, ctx.token_mint_a.key).leg.target_sqrt_price,
                    old(candle).spec_opened(current, ctx.token_mint_a.key).a_for_b,
                )
            },
            Err(e) => {
                &&& final(candle).open is None
                &&& final(candle).state == (if old(candle).state is Done {
                    CandleState::Done
                } else {
                    CandleState::Aborted
                })
                &&& e == (if spec_read_sqrt_price(pool_data@) is Err {
                    ErrorCode::InvalidPoolData
                } else {
                    ErrorCode::OutOfSequence
                })
                &&& spec_read_sqrt_price(pool_data@) is Ok ==> !is_leg(old(candle).state) || old(
                    candle,
                ).open is Some
            },
        },
{
    let current = match read_sqrt_price(pool_data) {
        Ok(current) => current,
        Err(e) => {
            candle.abort();
            return Err(e);
        },
    };
    match candle.start_leg(current, &ctx.token_mint_a.key) {
        Ok(open) => Ok(
            swap_to_target_price(ctx, open.leg.target_sqrt_price, open.a_for_b, slippage_bps),
        ),
        Err(e) => Err(e),
    }
}

} // verus!
