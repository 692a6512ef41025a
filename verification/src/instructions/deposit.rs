//! Deposits: funds move from the owner's wallet into the custody account.

pub use crate::error::ErrorCode;

use crate::accounts::{
    custody_guard, move_balance, moved, require_custody, require_token_accounts, token_guard,
    CustodyAccount, Mint, Signer, TokenAccount, Transfer, TransferChecked,
};
use crate::pubkey::{Pubkey, SYSTEM_PROGRAM_ID};
use vstd::prelude::*;

verus! {

/// The accounts of a deposit of the native currency.
#[derive(Clone, Copy, Debug, PartialEq, Eq)]
pub struct DepositSol {
    pub user: Signer,
    pub trading_account: CustodyAccount,
    pub system_program: Pubkey,
}

/// The accounts of a deposit of a token.
#[derive(Clone, Copy, Debug, PartialEq, Eq)]
pub struct DepositTokens {
    pub user: Signer,
    pub trading_account: CustodyAccount,
    /// The wallet's holding, which the tokens leave.
    pub user_token_account: TokenAccount,
    /// The custody account's holding, which receives them.
    pub pda_token_account: TokenAccount,
    pub mint: Mint,
    pub token_program: Pubkey,
}

impl DepositSol {
    /// What the guard says of these accounts.
    pub open spec fn guard(self, program: Pubkey) -> Result<(), ErrorCode> {
        if !self.user.is_signer {
            Err(ErrorCode::MissingSignature)
        } else if self.system_program@ != SYSTEM_PROGRAM_ID@ {
            Err(ErrorCode::InvalidProgramId)
        } else {
            custody_guard(program, self.user, self.trading_account)
        }
    }

    /// Checks the accounts of the request before anything moves.
    pub fn validate(&self, program: &Pubkey) -> (checked: Result<(), ErrorCode>)
        ensures
            checked == self.guard(*program),
    {
        if !self.user.is_signer {
            return Err(ErrorCode::MissingSignature);
        }
        if !self.system_program.has_bytes(&SYSTEM_PROGRAM_ID) {
            return Err(ErrorCode::InvalidProgramId);
        }
        require_custody(program, &self.user, &self.trading_account)
    }
}

impl DepositTokens {
    /// What the guard says of these accounts.
    pub open spec fn guard(self, program: Pubkey) -> Result<(), ErrorCode> {
        if !self.user.is_signer {
            Err(ErrorCode::MissingSignature)
        } else if custody_guard(program, self.user, self.trading_account) is Err {
            custody_guard(program, self.user, self.trading_account)
        } else {
            token_guard(
                self.token_program,
                self.mint,
                self.user.key,
                self.user_token_account,
                self.trading_account.key,
                self.pda_token_account,
            )
        }
    }

    /// Checks the accounts of the request before anything moves.
    pub fn validate(&self, program: &Pubkey) -> (checked: Result<(), ErrorCode>)
        ensures
            checked == self.guard(*program),
    {
        if !self.user.is_signer {
            return Err(ErrorCode::MissingSignature);
        }
        let custody = require_custody(program, &self.user, &self.trading_account);
        if custody.is_err() {
            return custody;
        }
        require_token_accounts(
            &self.token_program,
            &self.mint,
            &self.user.key,
            &self.user_token_account,
            &self.trading_account.key,
            &self.pda_token_account,
        )
    }
}

/// What a deposit of `amount` of the native currency does: the accounts
/// after it and the movement to carry out, or why it fails.
pub open spec fn spec_deposit_sol(ctx: DepositSol, amount: u64) -> Result<
    (DepositSol, Transfer),
    ErrorCode,
> {
    if amount == 0 {
        Err(ErrorCode::InvalidAmount)
    } else {
        match moved(ctx.user.lamports, ctx.trading_account.lamports, amount) {
            Err(e) => Err(e),
            Ok((user, custody)) => Ok(
                (
                    DepositSol {
                        user: Signer { lamports: user, ..ctx.user },
                        trading_account: CustodyAccount { lamports: custody, ..ctx.trading_account },
                        ..ctx
                    },
                    Transfer {
                        from: ctx.user.key,
                        to: ctx.trading_account.key,
                        lamports: amount,
                        signer: None,
                    },
                ),
            ),
        }
    }
}

/// Deposits `amount` of the native currency into the custody account. A
/// zero amount is refused. On success the balances are those after the
/// movement, which is returned to be carried out; on failure nothing changes.
pub fn deposit_sol(ctx: &mut DepositSol, amount: u64) -> (done: Result<Transfer, ErrorCode>)
    ensures
        match done {
            Ok(transfer) => spec_deposit_sol(*old(ctx), amount) matches Ok(to)
                && to == (*final(ctx), transfer),
            Err(e) => spec_deposit_sol(*old(ctx), amount) matches Err(f) && f == e && *final(ctx)
                == *old(ctx),
        },
        amount == 0 ==> done matches Err(ErrorCode::InvalidAmount),
{
    if amount == 0 {
        return Err(ErrorCode::InvalidAmount);
    }
    match move_balance(ctx.user.lamports, ctx.trading_account.lamports, amount) {
        Err(e) => Err(e),
        Ok((user, custody)) => {
            ctx.user.lamports = user;
            ctx.trading_account.lamports = custody;
            Ok(
                Transfer {
                    from: ctx.user.key,
                    to: ctx.trading_account.key,
                    lamports: amount,
                    signer: None,
                },
            )
        },
    }
}

/// What a deposit of `amount` of a token does: the accounts after it and
/// the movement to carry out, or why it fails.
pub open spec fn spec_deposit_tokens(ctx: DepositTokens, amount: u64) -> Result<
    (DepositTokens, TransferChecked),
    ErrorCode,
> {
    if amount == 0 {
        Err(ErrorCode::InvalidAmount)
    } else {
        match moved(ctx.user_token_account.amount, ctx.pda_token_account.amount, amount) {
            Err(e) => Err(e),
            Ok((user, custody)) => Ok(
                (
                    DepositTokens {
                        user_token_account: TokenAccount { amount: user, ..ctx.user_token_account },
                        pda_token_account: TokenAccount { amount: custody, ..ctx.pda_token_account },
                        ..ctx
                    },
                    TransferChecked {
                        program: ctx.token_program,
                        from: ctx.user_token_account.key,
                        mint: ctx.mint.key,
                        to: ctx.pda_token_account.key,
                        authority: ctx.user.key,
                        amount,
                        decimals: ctx.mint.decimals,
                        signer: None,
                    },
                ),
            ),
        }
    }
}

/// Deposits `amount` of a token into the custody account's holding. A zero
/// amount is refused. On success the balances are those after the movement,
/// which is returned to be carried out; on failure nothing changes.
pub fn deposit_tokens(ctx: &mut DepositTokens, amount: u64) -> (done: Result<
    TransferChecked,
    ErrorCode,
>)
    ensures
        match done {
            Ok(transfer) => spec_deposit_tokens(*old(ctx), amount) matches Ok(to)
                && to == (*final(ctx), transfer),
            Err(e) => spec_deposit_tokens(*old(ctx), amount) matches Err(f) && f == e
                && *final(ctx) == *old(ctx),
        },
        amount == 0 ==> done matches Err(ErrorCode::InvalidAmount),
{
    if amount == 0 {
        return Err(ErrorCode::InvalidAmount);
    }
    match move_balance(ctx.user_token_account.amount, ctx.pda_token_account.amount, amount) {
        Err(e) => Err(e),
        Ok((user, custody)) => {
            ctx.user_token_account.amount = user;
            ctx.pda_token_account.amount = custody;
            Ok(
                TransferChecked {
                    program: ctx.token_program,
                    from: ctx.user_token_account.key,
                    mint: ctx.mint.key,
                    to: ctx.pda_token_account.key,
                    authority: ctx.user.key,
                    amount,
                    decimals: ctx.mint.decimals,
                    signer: None,
                },
            )
        },
    }
}

} // verus!
