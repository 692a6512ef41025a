//! Withdrawals: funds move from the custody account back to its owner's
//! wallet, signed by the custody account itself.

pub use crate::error::ErrorCode;

use crate::accounts::{
    custody_guard, move_balance, moved, require_custody, require_token_accounts, token_guard,
    CustodyAccount, Mint, Signer, TokenAccount, Transfer, TransferChecked,
};
use crate::instructions::deposit::{
    spec_deposit_sol, spec_deposit_tokens, DepositSol, DepositTokens,
};
use crate::pubkey::{Pubkey, SYSTEM_PROGRAM_ID};
use crate::state::trading_account::TradingAccount;
use vstd::prelude::*;

verus! {

/// The accounts of a withdrawal of the native currency.
#[derive(Clone, Copy, Debug, PartialEq, Eq)]
pub struct WithdrawSol {
    pub user: Signer,
    pub trading_account: CustodyAccount,
    pub system_program: Pubkey,
}

/// The accounts of a withdrawal of a token.
#[derive(Clone, Copy, Debug, PartialEq, Eq)]
pub struct WithdrawTokens {
    pub user: Signer,
    pub trading_account: CustodyAccount,
    /// The custody account's holding, which the tokens leave.
    pub pda_token_account: TokenAccount,
    /// The wallet's holding, which receives them.
    pub user_token_account: TokenAccount,
    pub mint: Mint,
    pub token_program: Pubkey,
}

impl WithdrawSol {
    /// What the guard says of these accounts.
    pub open spec fn guard(self, program: Pubkey) -> Result<(), ErrorCode> {
        if !self.user.is_signer {
            Err(ErrorCode::MissingSignature)
        } else if self.system_program@ != SYSTEM_PROGRAM_ID@ {
            Err(ErrorCode::InvalidProgramId)
        } else {
            custody_guard(program, self.user, self.trading_account)
        }
    }

    /// Checks the accounts of the request before anything moves.
    pub fn validate(&self, program: &Pubkey) -> (checked: Result<(), ErrorCode>)
        ensures
            checked == self.guard(*program),
    {
        if !self.user.is_signer {
            return Err(ErrorCode::MissingSignature);
        }
        if !self.system_program.has_bytes(&SYSTEM_PROGRAM_ID) {
            return Err(ErrorCode::InvalidProgramId);
        }
        require_custody(program, &self.user, &self.trading_account)
    }
}

impl WithdrawTokens {
    /// What the guard says of these accounts.
    pub open spec fn guard(self, program: Pubkey) -> Result<(), ErrorCode> {
        if !self.user.is_signer {
            Err(ErrorCode::MissingSignature)
        } else if custody_guard(program, self.user, self.trading_account) is Err {
            custody_guard(program, self.user, self.trading_account)
        } else {
            token_guard(
                self.token_program,
                self.mint,
                self.user.key,
                self.user_token_account,
                self.trading_account.key,
                self.pda_token_account,
            )
        }
    }

    /// Checks the accounts of the request before anything moves.
    pub fn validate(&self, program: &Pubkey) -> (checked: Result<(), ErrorCode>)
        ensures
            checked == self.guard(*program),
    {
        if !self.user.is_signer {
            return Err(ErrorCode::MissingSignature);
        }
        let custody = require_custody(program, &self.user, &self.trading_account);
        if custody.is_err() {
            return custody;
        }
        require_token_accounts(
            &self.token_program,
            &self.mint,
            &self.user.key,
            &self.user_token_account,
            &self.trading_account.key,
            &self.pda_token_account,
        )
    }
}

/// What may leave a custody account that holds `lamports`, of which
/// `rent_exempt_min` must stay to keep the account alive.
pub open spec fn spec_available(lamports: u64, rent_exempt_min: u64) -> u64 {
    if lamports >= rent_exempt_min {
        (lamports - rent_exempt_min) as u64
    } else {
        0
    }
}

/// What may leave a custody account that holds `lamports`, of which
/// `rent_exempt_min` must stay to keep the account alive.
pub fn available(lamports: u64, rent_exempt_min: u64) -> (free: u64)
    ensures
        free == spec_available(lamports, rent_exempt_min),
        free <= lamports,
{
    match lamports.checked_sub(rent_exempt_min) {
        Some(free) => free,
        None => 0,
    }
}

/// What a withdrawal of `amount` of the native currency does: the accounts
/// after it and the movement to carry out, or why it fails.
pub open spec fn spec_withdraw_sol(ctx: WithdrawSol, rent_exempt_min: u64, amount: u64) -> Result<
    (WithdrawSol, Transfer),
    ErrorCode,
> {
    if amount == 0 {
        Err(ErrorCode::InvalidAmount)
    } else if amount > spec_available(ctx.trading_account.lamports, rent_exempt_min) {
        Err(ErrorCode::InsufficientBalance)
    } else {
        match moved(ctx.trading_account.lamports, ctx.user.lamports, amount) {
            Err(e) => Err(e),
            Ok((custody, user)) => Ok(
                (
                    WithdrawSol {
                        user: Signer { lamports: user, ..ctx.user },
                        trading_account: CustodyAccount { lamports: custody, ..ctx.trading_account },
                        ..ctx
                    },
                    Transfer {
                        from: ctx.trading_account.key,
                        to: ctx.user.key,
                        lamports: amount,
                        signer: Some(
                            TradingAccount {
                                owner: ctx.user.key,
                                bump: ctx.trading_account.data.bump,
                            },
                        ),
                    },
                ),
            ),
        }
    }
}

/// Withdraws `amount` of the native currency to the owner's wallet. A zero
/// amount is refused, and so is one above what is available: the reserve
/// that keeps the account alive does not leave. The movement is signed with
/// the custody account's own seeds. On failure nothing changes.
pub fn withdraw_sol(ctx: &mut WithdrawSol, rent_exempt_min: u64, amount: u64) -> (done: Result<
    Transfer,
    ErrorCode,
>)
    ensures
        match done {
            Ok(transfer) => spec_withdraw_sol(*old(ctx), rent_exempt_min, amount) matches Ok(to)
                && to == (*final(ctx), transfer),
            Err(e) => spec_withdraw_sol(*old(ctx), rent_exempt_min, amount) matches Err(f) && f == e
                && *final(ctx) == *old(ctx),
        },
        amount > spec_available(old(ctx).trading_account.lamports, rent_exempt_min) ==> done matches Err(
            ErrorCode::InsufficientBalance,
        ),
{
    if amount == 0 {
        return Err(ErrorCode::InvalidAmount);
    }
    if amount > available(ctx.trading_account.lamports, rent_exempt_min) {
        return Err(ErrorCode::InsufficientBalance);
    }
    match move_balance(ctx.trading_account.lamports, ctx.user.lamports, amount) {
        Err(e) => Err(e),
        Ok((custody, user)) => {
            ctx.user.lamports = user;
            ctx.trading_account.lamports = custody;
            Ok(
                Transfer {
                    from: ctx.trading_account.key,
                    to: ctx.user.key,
                    lamports: amount,
                    signer: Some(
                        TradingAccount { owner: ctx.user.key, bump: ctx.trading_account.data.bump },
                    ),
                },
            )
        },
    }
}

/// What a withdrawal of `amount` of a token does: the accounts after it
/// and the movement to carry out, or why it fails.
pub open spec fn spec_withdraw_tokens(ctx: WithdrawTokens, amount: u64) -> Result<
    (WithdrawTokens, TransferChecked),
    ErrorCode,
> {
    if amount == 0 {
        Err(ErrorCode::InvalidAmount)
    } else {
        match moved(ctx.pda_token_account.amount, ctx.user_token_account.amount, amount) {
            Err(e) => Err(e),
            Ok((custody, user)) => Ok(
                (
                    WithdrawTokens {
                        user_token_account: TokenAccount { amount: user, ..ctx.user_token_account },
                        pda_token_account: TokenAccount { amount: custody, ..ctx.pda_token_account },
                        ..ctx
                    },
                    TransferChecked {
                        program: ctx.token_program,
                        from: ctx.pda_token_account.key,
                        mint: ctx.mint.key,
                        to: ctx.user_token_account.key,
                        authority: ctx.trading_account.key,
                        amount,
                        decimals: ctx.mint.decimals,
                        signer: Some(
                            TradingAccount {
                                owner: ctx.user.key,
                                bump: ctx.trading_account.data.bump,
                            },
                        ),
                    },
                ),
            ),
        }
    }
}

/// Withdraws `amount` of a token to the owner's holding. A zero amount is
/// refused, and so is one above the recorded balance of the custody
/// account's holding. The movement is signed with the custody account's
/// own seeds. On failure nothing changes.
pub fn withdraw_tokens(ctx: &mut WithdrawTokens, amount: u64) -> (done: Result<
    TransferChecked,
    ErrorCode,
>)
    ensures
        match done {
            Ok(transfer) => spec_withdraw_tokens(*old(ctx), amount) matches Ok(to) && to == (
                *final(ctx),
                transfer,
            ),
            Err(e) => spec_withdraw_tokens(*old(ctx), amount) matches Err(f) && f == e
                && *final(ctx) == *old(ctx),
        },
        amount > old(ctx).pda_token_account.amount ==> done matches Err(
            ErrorCode::InsufficientBalance,
        ),
{
    if amount == 0 {
        return Err(ErrorCode::InvalidAmount);
    }
    match move_balance(ctx.pda_token_account.amount, ctx.user_token_account.amount, amount) {
        Err(e) => Err(e),
        Ok((custody, user)) => {
            ctx.user_token_account.amount = user;
            ctx.pda_token_account.amount = custody;
            Ok(
                TransferChecked {
                    program: ctx.token_program,
                    from: ctx.pda_token_account.key,
                    mint: ctx.mint.key,
                    to: ctx.user_token_account.key,
                    authority: ctx.trading_account.key,
                    amount,
                    decimals: ctx.mint.decimals,
                    signer: Some(
                        TradingAccount { owner: ctx.user.key, bump: ctx.trading_account.data.bump },
                    ),
                },
            )
        },
    }
}

/// The accounts of a withdrawal that follows a deposit on the same accounts.
pub open spec fn withdrawal_after(deposited: DepositSol) -> WithdrawSol {
    WithdrawSol {
        user: deposited.user,
        trading_account: deposited.trading_account,
        system_program: deposited.system_program,
    }
}

/// The accounts of a withdrawal of a token that follows a deposit on the
/// same accounts.
pub open spec fn token_withdrawal_after(deposited: DepositTokens) -> WithdrawTokens {
    WithdrawTokens {
        user: deposited.user,
        trading_account: deposited.trading_account,
        pda_token_account: deposited.pda_token_account,
        user_token_account: deposited.user_token_account,
        mint: deposited.mint,
        token_program: deposited.token_program,
    }
}

/// A deposit of the native currency followed by a withdrawal of the same
/// amount, both successful, leaves the custody account and the wallet
/// with the balances they had before.
pub proof fn law_sol_round_trip(before: DepositSol, amount: u64, rent_exempt_min: u64)
    requires
        spec_deposit_sol(before, amount) is Ok,
        spec_withdraw_sol(
            withdrawal_after(spec_deposit_sol(before, amount).unwrap().0),
            rent_exempt_min,
            amount,
        ) is Ok,
    ensures
        spec_withdraw_sol(
            withdrawal_after(spec_deposit_sol(before, amount).unwrap().0),
            rent_exempt_min,
            amount,
        ).unwrap().0 == withdrawal_after(before),
{
}

/// A deposit of a token followed by a withdrawal of the same amount, both
/// successful, leaves both holdings with the balances they had before.
pub proof fn law_token_round_trip(before: DepositTokens, amount: u64)
    requires
        spec_deposit_tokens(before, amount) is Ok,
        spec_withdraw_tokens(
            token_withdrawal_after(spec_deposit_tokens(before, amount).unwrap().0),
            amount,
        ) is Ok,
    ensures
        spec_withdraw_tokens(
            token_withdrawal_after(spec_deposit_tokens(before, amount).unwrap().0),
            amount,
        ).unwrap().0 == token_withdrawal_after(before),
{
}

/// The accounts of a deposit that follows a withdrawal on the same accounts.
pub open spec fn deposit_after(withdrawn: WithdrawSol) -> DepositSol {
    DepositSol {
        user: withdrawn.user,
        trading_account: withdrawn.trading_account,
        system_program: withdrawn.system_program,
    }
}

/// The accounts of a deposit of a token that follows a withdrawal on the
/// same accounts.
pub open spec fn token_deposit_after(withdrawn: WithdrawTokens) -> DepositTokens {
    DepositTokens {
        user: withdrawn.user,
        trading_account: withdrawn.trading_account,
        user_token_account: withdrawn.user_token_account,
        pda_token_account: withdrawn.pda_token_account,
        mint: withdrawn.mint,
        token_program: withdrawn.token_program,
    }
}

/// A withdrawal of the native currency followed by a deposit of the same
/// amount succeeds and leaves the custody account and the wallet with the
/// balances they had before.
pub proof fn law_sol_round_trip_back(before: WithdrawSol, amount: u64, rent_exempt_min: u64)
    requires
        spec_withdraw_sol(before, rent_exempt_min, amount) is Ok,
    ensures
        spec_deposit_sol(
            deposit_after(spec_withdraw_sol(before, rent_exempt_min, amount).unwrap().0),
            amount,
        ) is Ok,
        spec_deposit_sol(
            deposit_after(spec_withdraw_sol(before, rent_exempt_min, amount).unwrap().0),
            amount,
        ).unwrap().0 == deposit_after(before),
{
}

/// A withdrawal of a token followed by a deposit of the same amount
/// succeeds and leaves both holdings with the balances they had before.
pub proof fn law_token_round_trip_back(before: WithdrawTokens, amount: u64)
    requires
        spec_withdraw_tokens(before, amount) is Ok,
    ensures
        spec_deposit_tokens(
            token_deposit_after(spec_withdraw_tokens(before, amount).unwrap().0),
            amount,
        ) is Ok,
        spec_deposit_tokens(
            token_deposit_after(spec_withdraw_tokens(before, amount).unwrap().0),
            amount,
        ).unwrap().0 == token_deposit_after(before),
{
}

/// After a successful deposit of a token, a withdrawal of the same amount
/// succeeds: what went in can come out.
pub proof fn law_deposited_tokens_can_leave(before: DepositTokens, amount: u64)
    requires
        spec_deposit_tokens(before, amount) is Ok,
    ensures
        spec_withdraw_tokens(
            token_withdrawal_after(spec_deposit_tokens(before, amount).unwrap().0),
            amount,
        ) is Ok,
{
}

/// A withdrawal of the native currency never takes from the reserve: after
/// a successful one the custody account still holds `rent_exempt_min`.
pub proof fn law_reserve_stays(before: WithdrawSol, rent_exempt_min: u64, amount: u64)
    requires
        spec_withdraw_sol(before, rent_exempt_min, amount) is Ok,
    ensures
        spec_withdraw_sol(before, rent_exempt_min, amount).unwrap().0.trading_account.lamports
            >= rent_exempt_min,
        spec_withdraw_sol(before, rent_exempt_min, amount).unwrap().0.trading_account.lamports
            + amount == before.trading_account.lamports,
{
}

} // verus!
