//! A candle traded from the custody account's holdings, each leg handed to
//! the pool as a structured call that the custody account signs. A leg
//! offers a fixed input and leaves it to the price limit to stop the pool
//! at the target.

pub use crate::error::ErrorCode;

use crate::accounts::{
    custody_guard, is_token_program, keeps_holdings, require_custody, CustodyAccount, Mint, Signer,
    TokenAccount,
};
use crate::candle::{is_leg, Candle, CandlePattern, CandleState, Holdings, SwapLeg};
use crate::invoker::{spec_swap_accounts, swap_accounts, SwapCall, SwapParties};
use crate::pubkey::{
    copy_keys, Pubkey, MEMO_PROGRAM_ID, SYSTEM_PROGRAM_ID, TOKEN_2022_PROGRAM_ID, TOKEN_PROGRAM_ID,
};
use crate::state::trading_account::TradingAccount;
use vstd::prelude::*;

verus! {

/// The input that every leg of this candle offers to the pool.
pub const AMOUNT_SPECIFIED: u64 = 50_000_000;

/// The accounts of a candle traded from the custody account's holdings.
#[derive(Debug, PartialEq, Eq)]
pub struct SwapCandle {
    pub user: Signer,
    pub trading_account: CustodyAccount,
    /// The pool's program.
    pub raydium_program: Pubkey,
    /// Whether the pool's program can be run.
    pub raydium_executable: bool,
    pub amm_config: Pubkey,
    pub pool_state: Pubkey,
    /// The custody account's holding of the token that is not the native currency.
    pub trading_account_token: TokenAccount,
    /// The custody account's holding of the wrapped native currency.
    pub trading_account_wsol: TokenAccount,
    pub token_vault_a: TokenAccount,
    pub token_vault_b: TokenAccount,
    pub token_mint_a: Mint,
    pub token_mint_b: Mint,
    pub observation_state: Pubkey,
    pub token_program: Pubkey,
    pub token_program_2022: Pubkey,
    pub memo_program: Pubkey,
    pub system_program: Pubkey,
    /// The auxiliary accounts that the pool asks for.
    pub remaining_accounts: Vec<Pubkey>,
}

impl SwapCandle {
    /// The pool and the holdings of these accounts: the custody account pays.
    pub open spec fn spec_parties(self) -> SwapParties {
        SwapParties {
            payer: self.trading_account.key,
            wsol_account: self.trading_account_wsol.key,
            token_account: self.trading_account_token.key,
            amm_config: self.amm_config,
            pool_state: self.pool_state,
            token_vault_a: self.token_vault_a.key,
            token_vault_b: self.token_vault_b.key,
            token_mint_a: self.token_mint_a.key,
            token_mint_b: self.token_mint_b.key,
            observation_state: self.observation_state,
            token_program: self.token_program,
            token_program_2022: self.token_program_2022,
            memo_program: self.memo_program,
        }
    }

    /// The pool and the holdings of these accounts.
    pub fn parties(&self) -> (parties: SwapParties)
        ensures
            parties == self.spec_parties(),
    {
        SwapParties {
            payer: self.trading_account.key,
            wsol_account: self.trading_account_wsol.key,
            token_account: self.trading_account_token.key,
            amm_config: self.amm_config,
            pool_state: self.pool_state,
            token_vault_a: self.token_vault_a.key,
            token_vault_b: self.token_vault_b.key,
            token_mint_a: self.token_mint_a.key,
            token_mint_b: self.token_mint_b.key,
            observation_state: self.observation_state,
            token_program: self.token_program,
            token_program_2022: self.token_program_2022,
            memo_program: self.memo_program,
        }
    }

    /// The record with whose seeds the custody account signs a leg.
    pub open spec fn spec_signer(self) -> TradingAccount {
        TradingAccount { owner: self.user.key, bump: self.trading_account.data.bump }
    }

    /// The holdings over which the candle trades.
    pub open spec fn spec_holdings(self) -> Holdings {
        Holdings { wsol: self.trading_account_wsol.amount, token: self.trading_account_token.amount }
    }

    /// What the guard says of the accounts apart from the pool's program:
    /// the wallet has signed and owns the custody account, the programs are
    /// those of their names, both holdings are the custody account's, and
    /// each mint is the one of its vault.
    pub open spec fn bound(self, program: Pubkey) -> Result<(), ErrorCode> {
        if !self.user.is_signer {
            Err(ErrorCode::MissingSignature)
        } else if !self.raydium_executable || self.token_program@ != TOKEN_PROGRAM_ID@
            || self.token_program_2022@ != TOKEN_2022_PROGRAM_ID@ || self.system_program@
            != SYSTEM_PROGRAM_ID@ {
            Err(ErrorCode::InvalidProgramId)
        } else if !keeps_holdings(self.trading_account_token.program) || !keeps_holdings(
            self.trading_account_wsol.program,
        ) || !keeps_holdings(self.token_vault_a.program) || !keeps_holdings(
            self.token_vault_b.program,
        ) || !keeps_holdings(self.token_mint_a.program) || !keeps_holdings(
            self.token_mint_b.program,
        ) {
            Err(ErrorCode::InvalidAssetHandler)
        } else if custody_guard(program, self.user, self.trading_account) is Err {
            custody_guard(program, self.user, self.trading_account)
        } else if self.trading_account_token.owner != self.trading_account.key
            || self.trading_account_wsol.owner != self.trading_account.key || self.token_mint_a.key
            != self.token_vault_a.mint || self.token_mint_b.key != self.token_vault_b.mint {
            Err(ErrorCode::InvalidSubAccount)
        } else if self.memo_program@ != MEMO_PROGRAM_ID@ {
            Err(ErrorCode::InvalidProgramId)
        } else {
            Ok(())
        }
    }

    /// Checks the accounts apart from the pool's program.
    pub fn require_bound(&self, program: &Pubkey) -> (checked: Result<(), ErrorCode>)
        ensures
            checked == self.bound(*program),
    {
        if !self.user.is_signer {
            return Err(ErrorCode::MissingSignature);
        }
        if !self.raydium_executable || !self.token_program.has_bytes(&TOKEN_PROGRAM_ID)
            || !self.token_program_2022.has_bytes(&TOKEN_2022_PROGRAM_ID)
            || !self.system_program.has_bytes(&SYSTEM_PROGRAM_ID) {
            return Err(ErrorCode::InvalidProgramId);
        }
        if !is_token_program(&self.trading_account_token.program) || !is_token_program(
            &self.trading_account_wsol.program,
        ) || !is_token_program(&self.token_vault_a.program) || !is_token_program(
            &self.token_vault_b.program,
        ) || !is_token_program(&self.token_mint_a.program) || !is_token_program(
            &self.token_mint_b.program,
        ) {
            return Err(ErrorCode::InvalidAssetHandler);
        }
        let custody = require_custody(program, &self.user, &self.trading_account);
        if custody.is_err() {
            return custody;
        }
        if !self.trading_account_token.owner.same(&self.trading_account.key)
            || !self.trading_account_wsol.owner.same(&self.trading_account.key)
            || !self.token_mint_a.key.same(&self.token_vault_a.mint) || !self.token_mint_b.key.same(
            &self.token_vault_b.mint,
        ) {
            return Err(ErrorCode::InvalidSubAccount);
        }
        if !self.memo_program.has_bytes(&MEMO_PROGRAM_ID) {
            return Err(ErrorCode::InvalidProgramId);
        }
        Ok(())
    }

    /// What the guard says of these accounts, where `amm_program` is the
    /// pool's program.
    pub open spec fn guard(self, program: Pubkey, amm_program: Pubkey) -> Result<(), ErrorCode> {
        if !self.user.is_signer {
            Err(ErrorCode::MissingSignature)
        } else if self.raydium_program != amm_program {
            Err(ErrorCode::InvalidProgramId)
        } else {
            self.bound(program)
        }
    }

    /// Checks the accounts of the request before anything moves.
    pub fn validate(&self, program: &Pubkey, amm_program: &Pubkey) -> (checked: Result<(), ErrorCode>)
        ensures
            checked == self.guard(*program, *amm_program),
    {
        if !self.user.is_signer {
            return Err(ErrorCode::MissingSignature);
        }
        if !self.raydium_program.same(amm_program) {
            return Err(ErrorCode::InvalidProgramId);
        }
        self.require_bound(program)
    }
}

/// Whether `call` is the call of a leg of these accounts in the given
/// direction, with the given arguments, signed by the custody account.
pub open spec fn is_custody_call(
    call: SwapCall,
    ctx: SwapCandle,
    a_to_b: bool,
    amount: u64,
    other_amount_threshold: u64,
    sqrt_price_limit_x64: u128,
    is_base_input: bool,
) -> bool {
    &&& call.program == ctx.raydium_program
    &&& call.accounts == spec_swap_accounts(ctx.spec_parties(), a_to_b)
    &&& call.remaining_accounts@ == ctx.remaining_accounts@
    &&& call.amount == amount
    &&& call.other_amount_threshold == other_amount_threshold
    &&& call.sqrt_price_limit_x64 == sqrt_price_limit_x64
    &&& call.is_base_input == is_base_input
    &&& call.signer == Some(ctx.spec_signer())
}

/// The call of a leg of these accounts, signed by the custody account.
pub fn custody_call(
    ctx: &SwapCandle,
    a_to_b: bool,
    amount: u64,
    other_amount_threshold: u64,
    sqrt_price_limit_x64: u128,
    is_base_input: bool,
) -> (call: SwapCall)
    ensures
        is_custody_call(
            call,
            *ctx,
            a_to_b,
            amount,
            other_amount_threshold,
            sqrt_price_limit_x64,
            is_base_input,
        ),
{
    let parties = ctx.parties();
    SwapCall {
        program: ctx.raydium_program,
        accounts: swap_accounts(&parties, a_to_b),
        remaining_accounts: copy_keys(&ctx.remaining_accounts),
        amount,
        other_amount_threshold,
        sqrt_price_limit_x64,
        is_base_input,
        signer: Some(TradingAccount { owner: ctx.user.key, bump: ctx.trading_account.data.bump }),
    }
}

/// The call of one leg towards `target_sqrt_price`: a fixed input is
/// offered, no least output is demanded, and the target is the price limit
/// at which the pool stops. The flag of an exact input follows the
/// direction. The slippage is not read.
pub fn swap_to_target_price(
    ctx: &SwapCandle,
    target_sqrt_price: u128,
    a_to_b: bool,
    slippage_bps: u16,
) -> (call: SwapCall)
    ensures
        is_custody_call(call, *ctx, a_to_b, AMOUNT_SPECIFIED, 0, target_sqrt_price, a_to_b),
{
    custody_call(ctx, a_to_b, AMOUNT_SPECIFIED, 0, target_sqrt_price, a_to_b)
}

/// The pattern of three legs to the given targets with one bound on the input.
pub open spec fn spec_pattern(target_sqrt_prices: [u128; 3], max_input: u64) -> Seq<SwapLeg> {
    Seq::new(
        3,
        |i: int| SwapLeg { target_sqrt_price: target_sqrt_prices[i], max_input, min_output: 0 },
    )
}

/// The pattern of three legs to the given targets with one bound on the input.
pub fn pattern(target_sqrt_prices: [u128; 3], max_input: u64) -> (pattern: CandlePattern)
    ensures
        pattern.legs@ == spec_pattern(target_sqrt_prices, max_input),
{
    let legs: [SwapLeg; 3] = [
        SwapLeg { target_sqrt_price: target_sqrt_prices[0], max_input, min_output: 0 },
        SwapLeg { target_sqrt_price: target_sqrt_prices[1], max_input, min_output: 0 },
        SwapLeg { target_sqrt_price: target_sqrt_prices[2], max_input, min_output: 0 },
    ];
    assert(legs@ =~= spec_pattern(target_sqrt_prices, max_input));
    CandlePattern { legs }
}

/// Opens a candle of three legs to the given targets over the custody
/// account's two holdings. The slippage is not read.
pub fn swap_to_prices(ctx: &SwapCandle, target_sqrt_prices: [u128; 3], slippage_bps: u16) -> (candle:
    Candle)
    ensures
        candle.state == CandleState::Leg1,
        candle.open is None,
        candle.pattern.legs@ == spec_pattern(target_sqrt_prices, AMOUNT_SPECIFIED),
        candle.initial == ctx.spec_holdings(),
        candle.working == candle.initial,
        candle.results@.len() == 0,
        candle.wf(),
{
    let holdings = Holdings {
        wsol: ctx.trading_account_wsol.amount,
        token: ctx.trading_account_token.amount,
    };
    Candle::begin(pattern(target_sqrt_prices, AMOUNT_SPECIFIED), holdings)
}

/// Takes the candle into its next leg against the price of the pool as
/// read just before, and gives the call of the leg.
pub fn next_leg(candle: &mut Candle, ctx: &SwapCandle, current_sqrt_price: u128, slippage_bps: u16) -> (
called: Result<SwapCall, ErrorCode>)
    ensures
        final(candle).pattern == old(candle).pattern,
        final(candle).initial == old(candle).initial,
        final(candle).working == old(candle).working,
        final(candle).results == old(candle).results,
        final(candle).spec_holdings() == old(candle).spec_holdings(),
        old(candle).wf() ==> final(candle).wf(),
        match called {
            Ok(call) => {
                let open = old(candle).spec_opened(current_sqrt_price, ctx.token_mint_a.key);
                &&& is_leg(old(candle).state)
                &&& old(candle).open is None
                &&& final(candle).state == old(candle).state
                &&& final(candle).open == Some(open)
                &&& is_custody_call(
                    call,
                    *ctx,
                    open.a_for_b,
                    AMOUNT_SPECIFIED,
                    0,
                    open.leg.target_sqrt_price,
                    open.a_for_b,
                )
            },
            Err(e) => {
                &&& !is_leg(old(candle).state) || old(candle).open is Some
                &&& e == ErrorCode::OutOfSequence
                &&& final(candle).open is None
                &&& final(candle).state == (if old(candle).state is Done {
                    CandleState::Done
                } else {
                    CandleState::Aborted
                })
            },
        },
{
    match candle.start_leg(current_sqrt_price, &ctx.token_mint_a.key) {
        Ok(open) => Ok(
            swap_to_target_price(ctx, open.leg.target_sqrt_price, open.a_for_b, slippage_bps),
        ),
        Err(e) => Err(e),
    }
}

} // verus!
