//! A candle traded from a wallet's own holdings: each leg is sized by the
//! step amount solver, wraps the native currency where the leg takes it
//! in, and is held to its target afterwards.

pub use crate::error::ErrorCode;
pub use crate::candle::SwapSqrt;

use crate::accounts::{is_token_program, keeps_holdings, Mint, Signer, TokenAccount};
use crate::candle::{is_leg, Candle, CandlePattern, CandleState, Holdings, SwapLeg};
use crate::invoker::{
    input_is_wsol, spec_input_is_wsol, spec_swap_accounts, swap_accounts, SwapAccounts, SwapCall,
    SwapParties,
};
use crate::price::{is_price_reached, price_reached};
use crate::pubkey::{
    associated_token_address, associated_token_seeds, copy_keys, found_program_address, Pubkey,
    ASSOCIATED_TOKEN_PROGRAM_ID, SYSTEM_PROGRAM_ID, TOKEN_2022_PROGRAM_ID, TOKEN_PROGRAM_ID,
    WSOL_MINT,
};
use crate::solver::{
    amount_remaining, solve_step, spec_amount_remaining, spec_solve_step, spec_step_amounts,
    step_amounts, PoolSnapshot, StepAmounts,
};
use vstd::prelude::*;

verus! {

/// What is added to the amount of a leg when the native currency is wrapped.
pub const WRAP_BUFFER: u64 = 1000;

/// An account of which nothing is required but its address.
#[derive(Clone, Copy, Debug, PartialEq, Eq)]
pub struct UncheckedAccount {
    pub key: Pubkey,
    /// Whether the account holds no data yet.
    pub data_is_empty: bool,
    /// The balance of the wrapped native currency that the account records.
    pub amount: u64,
}

/// The accounts of a candle traded from a wallet's own holdings.
#[derive(Debug, PartialEq, Eq)]
pub struct SwapCandleSimple {
    /// The wallet that signs and pays.
    pub wallet: Signer,
    /// The wallet's holding of the token that is not the native currency.
    pub spl_ata: TokenAccount,
    /// The wallet's holding of the wrapped native currency.
    pub wsol_ata: UncheckedAccount,
    pub raydium_program: Pubkey,
    pub amm_config: Pubkey,
    pub pool_state: Pubkey,
    pub token_vault_a: TokenAccount,
    pub token_vault_b: TokenAccount,
    pub token_mint_a: Mint,
    pub token_mint_b: Mint,
    pub observation_state: Pubkey,
    pub token_program: Pubkey,
    pub token_program_2022: Pubkey,
    pub memo_program: Pubkey,
    pub associated_token_program: Pubkey,
    pub system_program: Pubkey,
    /// The auxiliary accounts that the pool asks for.
    pub remaining_accounts: Vec<Pubkey>,
}

/// The notice of a leg that was handed to the pool.
#[derive(Clone, Copy, Debug, PartialEq, Eq, Structural)]
pub struct Swap {
    pub a_for_b: bool,
    pub amount_in: u64,
    pub amount_out: u64,
}

/// The wrapping that precedes a leg which takes the native currency in.
#[derive(Clone, Copy, Debug, PartialEq, Eq)]
pub struct WrapSol {
    /// Whether the wallet's holding has to be created first.
    pub create_ata: bool,
    /// The mint of the wrapped native currency among the pool's two.
    pub mint: Pubkey,
    /// What moves from the wallet into the holding.
    pub lamports: u64,
}

/// What a wrapping moves into the holding.
pub open spec fn wrapped_lamports(wrap: Option<WrapSol>) -> u64 {
    match wrap {
        Some(w) => w.lamports,
        None => 0,
    }
}

/// What a leg asks of the runtime: a wrapping, if the leg needs one,
/// then the call to the pool; and the notice to give out after the call.
#[derive(Debug, PartialEq, Eq)]
pub struct SwapPlan {
    pub amounts: StepAmounts,
    pub wrap: Option<WrapSol>,
    pub call: SwapCall,
    pub notice: Swap,
}

impl SwapCandleSimple {
    /// The pool and the holdings of these accounts.
    pub open spec fn spec_parties(self) -> SwapParties {
        SwapParties {
            payer: self.wallet.key,
            wsol_account: self.wsol_ata.key,
            token_account: self.spl_ata.key,
            amm_config: self.amm_config,
            pool_state: self.pool_state,
            token_vault_a: self.token_vault_a.key,
            token_vault_b: self.token_vault_b.key,
            token_mint_a: self.token_mint_a.key,
            token_mint_b: self.token_mint_b.key,
            observation_state: self.observation_state,
            token_program: self.token_program,
            token_program_2022: self.token_program_2022,
            memo_program: self.memo_program,
        }
    }

    /// The pool and the holdings of these accounts.
    pub fn parties(&self) -> (parties: SwapParties)
        ensures
            parties == self.spec_parties(),
    {
        SwapParties {
            payer: self.wallet.key,
            wsol_account: self.wsol_ata.key,
            token_account: self.spl_ata.key,
            amm_config: self.amm_config,
            pool_state: self.pool_state,
            token_vault_a: self.token_vault_a.key,
            token_vault_b: self.token_vault_b.key,
            token_mint_a: self.token_mint_a.key,
            token_mint_b: self.token_mint_b.key,
            observation_state: self.observation_state,
            token_program: self.token_program,
            token_program_2022: self.token_program_2022,
            memo_program: self.memo_program,
        }
    }

    /// What the guard says of these accounts, where `amm_program` is the
    /// pool's program: the wallet has signed, every program is the one of
    /// its name, and every holding and mint is kept by a token program.
    pub open spec fn guard(self, amm_program: Pubkey) -> Result<(), ErrorCode> {
        if !self.wallet.is_signer {
            Err(ErrorCode::MissingSignature)
        } else if self.raydium_program != amm_program || self.token_program@ != TOKEN_PROGRAM_ID@
            || self.token_program_2022@ != TOKEN_2022_PROGRAM_ID@ || self.associated_token_program@
            != ASSOCIATED_TOKEN_PROGRAM_ID@ || self.system_program@ != SYSTEM_PROGRAM_ID@ {
            Err(ErrorCode::InvalidProgramId)
        } else if !keeps_holdings(self.spl_ata.program) || !keeps_holdings(
            self.token_vault_a.program,
        ) || !keeps_holdings(self.token_vault_b.program) || !keeps_holdings(
            self.token_mint_a.program,
        ) || !keeps_holdings(self.token_mint_b.program) {
            Err(ErrorCode::InvalidAssetHandler)
        } else {
            Ok(())
        }
    }

    /// Checks the accounts of the request before anything moves.
    pub fn validate(&self, amm_program: &Pubkey) -> (checked: Result<(), ErrorCode>)
        ensures
            checked == self.guard(*amm_program),
    {
        if !self.wallet.is_signer {
            return Err(ErrorCode::MissingSignature);
        }
        if !self.raydium_program.same(amm_program) || !self.token_program.has_bytes(
            &TOKEN_PROGRAM_ID,
        ) || !self.token_program_2022.has_bytes(&TOKEN_2022_PROGRAM_ID)
            || !self.associated_token_program.has_bytes(&ASSOCIATED_TOKEN_PROGRAM_ID)
            || !self.system_program.has_bytes(&SYSTEM_PROGRAM_ID) {
            return Err(ErrorCode::InvalidProgramId);
        }
        if !is_token_program(&self.spl_ata.program) || !is_token_program(
            &self.token_vault_a.program,
        ) || !is_token_program(&self.token_vault_b.program) || !is_token_program(
            &self.token_mint_a.program,
        ) || !is_token_program(&self.token_mint_b.program) {
            return Err(ErrorCode::InvalidAssetHandler);
        }
        Ok(())
    }
}

/// Whether the holding named for the wrapped native currency is the one
/// associated with the wallet.
pub open spec fn wsol_ata_is_valid(ctx: SwapCandleSimple) -> bool {
    found_program_address(
        associated_token_seeds(ctx.wallet.key, Pubkey { bytes: WSOL_MINT }),
        ASSOCIATED_TOKEN_PROGRAM_ID@,
    ) matches Some(found) && found.0 == ctx.wsol_ata.key@
}

/// Holds the holding named for the wrapped native currency to the address
/// associated with the wallet.
pub fn require_valid_wsol_ata(ctx: &SwapCandleSimple) -> (checked: Result<(), ErrorCode>)
    ensures
        checked == (if wsol_ata_is_valid(*ctx) {
            Ok::<(), ErrorCode>(())
        } else {
            Err::<(), ErrorCode>(ErrorCode::InvalidWsolAta)
        }),
{
    let mint = Pubkey { bytes: WSOL_MINT };
    match associated_token_address(&ctx.wallet.key, &mint) {
        Some(expected) => {
            if ctx.wsol_ata.key.same(&expected) {
                Ok(())
            } else {
                Err(ErrorCode::InvalidWsolAta)
            }
        },
        None => Err(ErrorCode::InvalidWsolAta),
    }
}

/// What `get_amount_in` returns.
pub open spec fn spec_get_amount_in(
    snapshot: PoolSnapshot,
    to_sqrt_price: u128,
    a_for_b: bool,
    max_in: u64,
    min_out: u64,
) -> Result<StepAmounts, ErrorCode> {
    match spec_solve_step(snapshot, to_sqrt_price, a_for_b, spec_amount_remaining(max_in)) {
        Ok(step) => Ok(spec_step_amounts(step, min_out)),
        Err(e) => Err(e),
    }
}

/// The amounts of a leg from the snapshot's price to `to_sqrt_price`: the
/// input and the output of the pool's own step with at most `max_in` of
/// input, where zero stands for no bound, and the least output to demand,
/// which is `min_out` unless the step gives less.
pub fn get_amount_in(
    snapshot: &PoolSnapshot,
    to_sqrt_price: u128,
    a_for_b: bool,
    max_in: u64,
    min_out: u64,
) -> (amounts: Result<StepAmounts, ErrorCode>)
    ensures
        amounts == spec_get_amount_in(*snapshot, to_sqrt_price, a_for_b, max_in, min_out),
{
    match solve_step(snapshot, to_sqrt_price, a_for_b, amount_remaining(max_in)) {
        Ok(step) => Ok(step_amounts(&step, min_out)),
        Err(e) => Err(e),
    }
}

/// What `wrap_sol` returns.
pub open spec fn spec_wrap_sol(ctx: SwapCandleSimple, amount: u64, a_for_b: bool) -> Result<
    Option<WrapSol>,
    ErrorCode,
> {
    if !spec_input_is_wsol(ctx.token_mint_a.key, a_for_b) {
        Ok(None)
    } else if amount + WRAP_BUFFER > u64::MAX {
        Err(ErrorCode::Overflow)
    } else {
        Ok(
            Some(
                WrapSol {
                    create_ata: ctx.wsol_ata.data_is_empty,
                    mint: if ctx.token_mint_a.key@ == WSOL_MINT@ {
                        ctx.token_mint_a.key
                    } else {
                        ctx.token_mint_b.key
                    },
                    lamports: (amount + WRAP_BUFFER) as u64,
                },
            ),
        )
    }
}

/// Plans the wrapping that a leg needs: none where the leg does not take
/// the native currency in; else the amount and a buffer move into the
/// wallet's holding, which is created first where it holds no data.
pub fn wrap_sol(ctx: &SwapCandleSimple, amount: u64, a_for_b: bool) -> (wrap: Result<
    Option<WrapSol>,
    ErrorCode,
>)
    ensures
        wrap == spec_wrap_sol(*ctx, amount, a_for_b),
{
    if !input_is_wsol(&ctx.token_mint_a.key, a_for_b) {
        return Ok(None);
    }
    let mint = if ctx.token_mint_a.key.has_bytes(&WSOL_MINT) {
        ctx.token_mint_a.key
    } else {
        ctx.token_mint_b.key
    };
    match amount.checked_add(WRAP_BUFFER) {
        Some(lamports) => Ok(Some(WrapSol { create_ata: ctx.wsol_ata.data_is_empty, mint, lamports })),
        None => Err(ErrorCode::Overflow),
    }
}

/// Puts the accounts of a leg in their roles.
pub fn build_swap_cpi_accounts(ctx: &SwapCandleSimple, a_for_b: bool) -> (accounts: SwapAccounts)
    ensures
        accounts == spec_swap_accounts(ctx.spec_parties(), a_for_b),
{
    let parties = ctx.parties();
    swap_accounts(&parties, a_for_b)
}

/// The amounts and the wrapping of a leg, or why the leg cannot be planned.
pub open spec fn spec_leg_amounts(
    ctx: SwapCandleSimple,
    snapshot: PoolSnapshot,
    to_sqrt_price: u128,
    a_for_b: bool,
    max_in: u64,
    min_out: u64,
) -> Result<(StepAmounts, Option<WrapSol>), ErrorCode> {
    match spec_get_amount_in(snapshot, to_sqrt_price, a_for_b, max_in, min_out) {
        Err(e) => Err(e),
        Ok(amounts) => match spec_wrap_sol(ctx, amounts.amount_in, a_for_b) {
            Err(e) => Err(e),
            Ok(wrap) => Ok((amounts, wrap)),
        },
    }
}

/// Whether `plan` is what a leg with the given amounts and wrapping asks
/// of the runtime: the call hands the pool the step's input as an
/// exact input, the least output, and the target as the price limit.
pub open spec fn is_plan_of(
    plan: SwapPlan,
    ctx: SwapCandleSimple,
    to_sqrt_price: u128,
    a_for_b: bool,
    amounts: StepAmounts,
    wrap: Option<WrapSol>,
) -> bool {
    &&& plan.amounts == amounts
    &&& plan.wrap == wrap
    &&& plan.notice == (Swap {
        a_for_b,
        amount_in: amounts.amount_in,
        amount_out: amounts.amount_out,
    })
    &&& plan.call.program == ctx.raydium_program
    &&& plan.call.accounts == spec_swap_accounts(ctx.spec_parties(), a_for_b)
    &&& plan.call.remaining_accounts@ == ctx.remaining_accounts@
    &&& plan.call.amount == amounts.amount_in
    &&& plan.call.other_amount_threshold == amounts.minimum_amount_out
    &&& plan.call.sqrt_price_limit_x64 == to_sqrt_price
    &&& plan.call.is_base_input
    &&& plan.call.signer is None
}

/// Plans one leg to `to_sqrt_price` against a snapshot read just before:
/// the amounts, the wrapping, the call. The leg fails where the amounts
/// cannot be solved or the wrapping cannot be counted.
pub fn swap_to_price(
    ctx: &SwapCandleSimple,
    snapshot: &PoolSnapshot,
    to_sqrt_price: u128,
    a_for_b: bool,
    max_in: u64,
    min_out: u64,
) -> (planned: Result<SwapPlan, ErrorCode>)
    ensures
        match planned {
            Ok(plan) => spec_leg_amounts(*ctx, *snapshot, to_sqrt_price, a_for_b, max_in, min_out)
                matches Ok(sized) && is_plan_of(plan, *ctx, to_sqrt_price, a_for_b, sized.0, sized.1),
            Err(e) => spec_leg_amounts(*ctx, *snapshot, to_sqrt_price, a_for_b, max_in, min_out)
                matches Err(f) && f == e,
        },
{
    let amounts = match get_amount_in(snapshot, to_sqrt_price, a_for_b, max_in, min_out) {
        Ok(amounts) => amounts,
        Err(e) => {
            return Err(e);
        },
    };
    let wrap = match wrap_sol(ctx, amounts.amount_in, a_for_b) {
        Ok(wrap) => wrap,
        Err(e) => {
            return Err(e);
        },
    };
    let call = SwapCall {
        program: ctx.raydium_program,
        accounts: build_swap_cpi_accounts(ctx, a_for_b),
        remaining_accounts: copy_keys(&ctx.remaining_accounts),
        amount: amounts.amount_in,
        other_amount_threshold: amounts.minimum_amount_out,
        sqrt_price_limit_x64: to_sqrt_price,
        is_base_input: true,
        signer: None,
    };
    let notice = Swap { a_for_b, amount_in: amounts.amount_in, amount_out: amounts.amount_out };
    Ok(SwapPlan { amounts, wrap, call, notice })
}

/// Holds a leg to its target: the realized price must lie within one part
/// in a thousand of the target, the bounds included. The notice of the leg
/// is returned to be given out.
pub fn require_price_reached(
    actual_sqrt_price: u128,
    from_sqrt_price: u128,
    to_sqrt_price: u128,
) -> (reached: Result<SwapSqrt, ErrorCode>)
    ensures
        reached == (if price_reached(actual_sqrt_price, to_sqrt_price) {
            Ok::<SwapSqrt, ErrorCode>(
                SwapSqrt { from_sqrt_price, to_sqrt_price, actual_sqrt_price },
            )
        } else {
            Err::<SwapSqrt, ErrorCode>(ErrorCode::PriceNotReached)
        }),
        reached is Ok <==> (if actual_sqrt_price > to_sqrt_price {
            actual_sqrt_price - to_sqrt_price
        } else {
            to_sqrt_price - actual_sqrt_price
        }) <= to_sqrt_price / 1000,
{
    if is_price_reached(actual_sqrt_price, to_sqrt_price) {
        Ok(SwapSqrt { from_sqrt_price, to_sqrt_price, actual_sqrt_price })
    } else {
        Err(ErrorCode::PriceNotReached)
    }
}

/// The pattern of the three legs with the given targets and bounds.
pub open spec fn spec_pattern(
    to_sqrt_prices: [u128; 3],
    max_inputs: [u64; 3],
    min_outputs: [u64; 3],
) -> Seq<SwapLeg> {
    Seq::new(
        3,
        |i: int|
            SwapLeg {
                target_sqrt_price: to_sqrt_prices[i],
                max_input: max_inputs[i],
                min_output: min_outputs[i],
            },
    )
}

/// Opens a candle of three legs to the given targets, each with its
/// bounds, over the wallet's two holdings. The holding named for the
/// wrapped native currency must be the wallet's associated one.
pub fn swap_to_prices_simple(
    ctx: &SwapCandleSimple,
    to_sqrt_prices: [u128; 3],
    max_inputs: [u64; 3],
    min_outputs: [u64; 3],
) -> (opened: Result<Candle, ErrorCode>)
    ensures
        match opened {
            Ok(candle) => {
                &&& wsol_ata_is_valid(*ctx)
                &&& candle.state == CandleState::Leg1
                &&& candle.open is None
                &&& candle.pattern.legs@ == spec_pattern(to_sqrt_prices, max_inputs, min_outputs)
                &&& candle.initial == (Holdings { wsol: ctx.wsol_ata.amount, token: ctx.spl_ata.amount })
                &&& candle.working == candle.initial
                &&& candle.results@.len() == 0
                &&& candle.wf()
            },
            Err(e) => !wsol_ata_is_valid(*ctx) && e == ErrorCode::InvalidWsolAta,
        },
{
    match require_valid_wsol_ata(ctx) {
        Ok(()) => {},
        Err(e) => {
            return Err(e);
        },
    }
    let legs: [SwapLeg; 3] = [
        SwapLeg {
            target_sqrt_price: to_sqrt_prices[0],
            max_input: max_inputs[0],
            min_output: min_outputs[0],
        },
        SwapLeg {
            target_sqrt_price: to_sqrt_prices[1],
            max_input: max_inputs[1],
            min_output: min_outputs[1],
        },
        SwapLeg {
            target_sqrt_price: to_sqrt_prices[2],
            max_input: max_inputs[2],
            min_output: min_outputs[2],
        },
    ];
    assert(legs@ =~= spec_pattern(to_sqrt_prices, max_inputs, min_outputs));
    let holdings = Holdings { wsol: ctx.wsol_ata.amount, token: ctx.spl_ata.amount };
    Ok(Candle::begin(CandlePattern { legs }, holdings))
}

/// Takes the candle into its next leg against a snapshot read just
/// before: the direction is resolved, the leg is planned, and what it wraps
/// is counted to the holding. Where any of this fails the candle is ended.
pub fn next_leg(candle: &mut Candle, ctx: &SwapCandleSimple, snapshot: &PoolSnapshot) -> (planned:
    Result<SwapPlan, ErrorCode>)
    ensures
        final(candle).pattern == old(candle).pattern,
        final(candle).initial == old(candle).initial,
        final(candle).results == old(candle).results,
        final(candle).spec_holdings() == old(candle).spec_holdings(),
        old(candle).wf() ==> final(candle).wf(),
        match planned {
            Ok(plan) => {
                let open = old(candle).spec_opened(snapshot.sqrt_price_x64, ctx.token_mint_a.key);
                &&& is_leg(old(candle).state)
                &&& old(candle).open is None
                &&& final(candle).state == old(candle).state
                &&& final(candle).open == Some(open)
                &&& spec_leg_amounts(
                    *ctx,
                    *snapshot,
                    open.leg.target_sqrt_price,
                    open.a_for_b,
                    open.leg.max_input,
                    open.leg.min_output,
                ) matches Ok(sized)
                &&& is_plan_of(plan, *ctx, open.leg.target_sqrt_price, open.a_for_b, sized.0, sized.1)
                &&& final(candle).working == (Holdings {
                    wsol: (old(candle).working.wsol + wrapped_lamports(plan.wrap)) as u64,
                    token: old(candle).working.token,
                })
                &&& old(candle).working.wsol + wrapped_lamports(plan.wrap) <= u64::MAX
            },
            Err(e) => {
                &&& final(candle).working == old(candle).working
                &&& final(candle).open is None
                &&& final(candle).state == (if old(candle).state is Done {
                    CandleState::Done
                } else {
                    CandleState::Aborted
                })
                &&& if !is_leg(old(candle).state) || old(candle).open is Some {
                    e == ErrorCode::OutOfSequence
                } else {
                    let open = old(candle).spec_opened(
                        snapshot.sqrt_price_x64,
                        ctx.token_mint_a.key,
                    );
                    match spec_leg_amounts(
                        *ctx,
                        *snapshot,
                        open.leg.target_sqrt_price,
                        open.a_for_b,
                        open.leg.max_input,
                        open.leg.min_output,
                    ) {
                        Err(f) => e == f,
                        Ok(sized) => e == ErrorCode::Overflow && old(candle).working.wsol
                            + wrapped_lamports(sized.1) > u64::MAX,
                    }
                }
            },
        },
{
    let open = match candle.start_leg(snapshot.sqrt_price_x64, &ctx.token_mint_a.key) {
        Ok(open) => open,
        Err(e) => {
            return Err(e);
        },
    };
    let plan = match swap_to_price(
        ctx,
        snapshot,
        open.leg.target_sqrt_price,
        open.a_for_b,
        open.leg.max_input,
        open.leg.min_output,
    ) {
        Ok(plan) => plan,
        Err(e) => {
            candle.abort();
            return Err(e);
        },
    };
    match plan.wrap {
        Some(wrap) => match candle.wrap(wrap.lamports) {
            Ok(()) => {},
            Err(e) => {
                return Err(e);
            },
        },
        None => {},
    }
    Ok(plan)
}

} // verus!
