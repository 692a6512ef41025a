//! A custodial agent that drives the price of a concentrated-liquidity pool
//! to a sequence of exact targets, with funds it holds in trust for one
//! owner. The operations below are those that the program offers: each one
//! holds the accounts of the request to the guard and then decides what is
//! to move.

pub mod accounts;
pub mod bytes;
pub mod candle;
pub mod error;
pub mod instructions;
pub mod invoker;
pub mod price;
pub mod pubkey;
pub mod solver;
pub mod state;
pub mod wide;

use crate::accounts::{Transfer, TransferChecked};
use crate::candle::{Candle, CandleState};
use crate::error::ErrorCode;
use crate::instructions::deposit::{
    spec_deposit_sol, spec_deposit_tokens, DepositSol, DepositTokens,
};
use crate::instructions::initialize::{CustodySlot, Initialize};
use crate::instructions::swap::{spec_pattern, SwapCandle, AMOUNT_SPECIFIED};
use crate::instructions::withdraw::{
    spec_available, spec_withdraw_sol, spec_withdraw_tokens, WithdrawSol, WithdrawTokens,
};
use crate::pubkey::{Pubkey, SYSTEM_PROGRAM_ID};
use crate::state::trading_account::{custody_address, TradingAccount};
use vstd::prelude::*;

verus! {

/// The address of this program, under which the custody accounts are derived.
pub const ID: [u8; 32] = [
    90, 73, 64, 0, 109, 85, 116, 3, 183, 64, 227, 206, 21, 170, 100, 83, 237, 80, 238, 45, 6, 171,
    25, 76, 49, 98, 254, 87, 220, 55, 184, 233,
];

/// The address of this program.
pub open spec fn spec_id() -> Pubkey {
    Pubkey { bytes: ID }
}

/// The address of this program.
pub fn id() -> (program: Pubkey)
    ensures
        program == spec_id(),
{
    Pubkey { bytes: ID }
}

/// Brings the custody account of the signing wallet into being: the
/// wallet becomes its owner, and the record keeps the bump seed of the
/// address. The place named must be the address derived for the wallet,
/// and must hold no record yet. The record that results is owned by the
/// wallet and kept at the address derived for it, which is what the guard
/// of every later operation asks of a custody account.
pub fn initialize(ctx: &mut Initialize) -> (done: Result<TradingAccount, ErrorCode>)
    ensures
        match done {
            Ok(record) => {
                &&& old(ctx).guard(spec_id()) == Ok::<u8, ErrorCode>(record.bump)
                &&& old(ctx).trading_account.data is None
                &&& record.owner == old(ctx).user.key
                &&& *final(ctx) == (Initialize {
                    trading_account: CustodySlot { data: Some(record), ..old(ctx).trading_account },
                    ..*old(ctx)
                })
                &&& custody_address(record, spec_id()) == Some(old(ctx).trading_account.key@)
            },
            Err(e) => {
                &&& *final(ctx) == *old(ctx)
                &&& match old(ctx).guard(spec_id()) {
                    Err(refused) => e == refused,
                    Ok(_) => e == ErrorCode::AlreadyInitialized && old(ctx).trading_account.data
                        is Some,
                }
            },
        },
{
    let program = id();
    let bump = match ctx.validate(&program) {
        Ok(bump) => bump,
        Err(e) => {
            return Err(e);
        },
    };
    crate::instructions::initialize::initialize(ctx, bump)
}

/// Deposits `amount` of the native currency from the signing wallet into
/// its custody account.
pub fn deposit_sol(ctx: &mut DepositSol, amount: u64) -> (done: Result<Transfer, ErrorCode>)
    ensures
        match done {
            Ok(transfer) => {
                &&& old(ctx).guard(spec_id()) is Ok
                &&& spec_deposit_sol(*old(ctx), amount) matches Ok(to)
                &&& to == (*final(ctx), transfer)
            },
            Err(e) => {
                &&& *final(ctx) == *old(ctx)
                &&& match old(ctx).guard(spec_id()) {
                    Err(refused) => e == refused,
                    Ok(_) => spec_deposit_sol(*old(ctx), amount) matches Err(f) && f == e,
                }
            },
        },
{
    let program = id();
    match ctx.validate(&program) {
        Ok(()) => {},
        Err(e) => {
            return Err(e);
        },
    }
    crate::instructions::deposit::deposit_sol(ctx, amount)
}

/// Deposits `amount` of a token from the signing wallet's holding into
/// the holding of its custody account.
pub fn deposit_tokens(ctx: &mut DepositTokens, amount: u64) -> (done: Result<
    TransferChecked,
    ErrorCode,
>)
    ensures
        match done {
            Ok(transfer) => {
                &&& old(ctx).guard(spec_id()) is Ok
                &&& spec_deposit_tokens(*old(ctx), amount) matches Ok(to)
                &&& to == (*final(ctx), transfer)
            },
            Err(e) => {
                &&& *final(ctx) == *old(ctx)
                &&& match old(ctx).guard(spec_id()) {
                    Err(refused) => e == refused,
                    Ok(_) => spec_deposit_tokens(*old(ctx), amount) matches Err(f) && f == e,
                }
            },
        },
{
    let program = id();
    match ctx.validate(&program) {
        Ok(()) => {},
        Err(e) => {
            return Err(e);
        },
    }
    crate::instructions::deposit::deposit_tokens(ctx, amount)
}

/// Withdraws `amount` of the native currency from the custody account to
/// the wallet that owns it. A signer who is not the owner is refused, and
/// so is an amount above what is available once `rent_exempt_min` is set
/// aside; in both cases the balances stay as they are.
pub fn withdraw_sol(ctx: &mut WithdrawSol, rent_exempt_min: u64, amount: u64) -> (done: Result<
    Transfer,
    ErrorCode,
>)
    ensures
        match done {
            Ok(transfer) => {
                &&& old(ctx).guard(spec_id()) is Ok
                &&& spec_withdraw_sol(*old(ctx), rent_exempt_min, amount) matches Ok(to)
                &&& to == (*final(ctx), transfer)
            },
            Err(e) => {
                &&& *final(ctx) == *old(ctx)
                &&& match old(ctx).guard(spec_id()) {
                    Err(refused) => e == refused,
                    Ok(_) => spec_withdraw_sol(*old(ctx), rent_exempt_min, amount) matches Err(f)
                        && f == e,
                }
            },
        },
        old(ctx).user.is_signer && old(ctx).system_program@ == SYSTEM_PROGRAM_ID@ && old(
            ctx,
        ).trading_account.data.owner != old(ctx).user.key ==> done matches Err(
            ErrorCode::Unauthorized,
        ),
        old(ctx).guard(spec_id()) is Ok && amount > spec_available(
            old(ctx).trading_account.lamports,
            rent_exempt_min,
        ) ==> done matches Err(ErrorCode::InsufficientBalance),
{
    let program = id();
    match ctx.validate(&program) {
        Ok(()) => {},
        Err(e) => {
            return Err(e);
        },
    }
    crate::instructions::withdraw::withdraw_sol(ctx, rent_exempt_min, amount)
}

/// Withdraws `amount` of a token from the custody account's holding to
/// the holding of the wallet that owns it. A signer who is not the owner
/// is refused, and so is an amount above the recorded balance; in both
/// cases the balances stay as they are.
pub fn withdraw_tokens(ctx: &mut WithdrawTokens, amount: u64) -> (done: Result<
    TransferChecked,
    ErrorCode,
>)
    ensures
        match done {
            Ok(transfer) => {
                &&& old(ctx).guard(spec_id()) is Ok
                &&& spec_withdraw_tokens(*old(ctx), amount) matches Ok(to)
                &&& to == (*final(ctx), transfer)
            },
            Err(e) => {
                &&& *final(ctx) == *old(ctx)
                &&& match old(ctx).guard(spec_id()) {
                    Err(refused) => e == refused,
                    Ok(_) => spec_withdraw_tokens(*old(ctx), amount) matches Err(f) && f == e,
                }
            },
        },
        old(ctx).user.is_signer && old(ctx).trading_account.data.owner != old(ctx).user.key
            ==> done matches Err(ErrorCode::Unauthorized),
        old(ctx).guard(spec_id()) is Ok && amount > old(ctx).pda_token_account.amount
            ==> done matches Err(ErrorCode::InsufficientBalance),
{
    let program = id();
    match ctx.validate(&program) {
        Ok(()) => {},
        Err(e) => {
            return Err(e);
        },
    }
    crate::instructions::withdraw::withdraw_tokens(ctx, amount)
}

/// Opens a candle of three legs to the given targets over the holdings of
/// the signing wallet's custody account, where `amm_program` is the
/// pool's program. The slippage is not read.
pub fn swap_to_prices(
    ctx: &SwapCandle,
    amm_program: &Pubkey,
    target_sqrt_prices: [u128; 3],
    slippage_bps: u16,
) -> (opened: Result<Candle, ErrorCode>)
    ensures
        match opened {
            Ok(candle) => {
                &&& ctx.guard(spec_id(), *amm_program) is Ok
                &&& candle.state == CandleState::Leg1
                &&& candle.open is None
                &&& candle.pattern.legs@ == spec_pattern(target_sqrt_prices, AMOUNT_SPECIFIED)
                &&& candle.initial == ctx.spec_holdings()
                &&& candle.working == candle.initial
                &&& candle.results@.len() == 0
                &&& candle.wf()
            },
            Err(e) => ctx.guard(spec_id(), *amm_program) matches Err(refused) && e == refused,
        },
{
    let program = id();
    match ctx.validate(&program, amm_program) {
        Ok(()) => {},
        Err(e) => {
            return Err(e);
        },
    }
    Ok(crate::instructions::swap::swap_to_prices(ctx, target_sqrt_prices, slippage_bps))
}

} // verus!
