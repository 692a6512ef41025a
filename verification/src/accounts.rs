//! The accounts that a request names, as the values that the rules read:
//! addresses, balances, and the bindings between them.

use crate::error::ErrorCode;
use crate::pubkey::{Pubkey, TOKEN_2022_PROGRAM_ID, TOKEN_PROGRAM_ID};
use crate::state::trading_account::{custody_address, TradingAccount};
use vstd::prelude::*;

verus! {

/// A wallet named as the signer of a request.
#[derive(Clone, Copy, Debug, PartialEq, Eq)]
pub struct Signer {
    pub key: Pubkey,
    /// Whether the wallet has signed the request.
    pub is_signer: bool,
    /// The wallet's balance of the native currency.
    pub lamports: u64,
}

/// A custody account as the runtime holds it.
#[derive(Clone, Copy, Debug, PartialEq, Eq)]
pub struct CustodyAccount {
    pub key: Pubkey,
    /// The account's balance of the native currency, reserve included.
    pub lamports: u64,
    /// The record kept in the account.
    pub data: TradingAccount,
}

/// A holding of one token.
#[derive(Clone, Copy, Debug, PartialEq, Eq)]
pub struct TokenAccount {
    pub key: Pubkey,
    /// The token that the holding is of.
    pub mint: Pubkey,
    /// The account that may move the holding.
    pub owner: Pubkey,
    /// The recorded balance.
    pub amount: u64,
    /// The token program that keeps the holding.
    pub program: Pubkey,
}

/// A token.
#[derive(Clone, Copy, Debug, PartialEq, Eq)]
pub struct Mint {
    pub key: Pubkey,
    pub decimals: u8,
    /// The token program that keeps the token.
    pub program: Pubkey,
}

/// A movement of the native currency, for the system program to carry out.
#[derive(Clone, Copy, Debug, PartialEq, Eq)]
pub struct Transfer {
    pub from: Pubkey,
    pub to: Pubkey,
    pub lamports: u64,
    /// The custody record whose seeds sign the movement, where the custody
    /// account signs for itself; `None` where the wallet signs.
    pub signer: Option<TradingAccount>,
}

/// A movement of a token, for its token program to carry out.
#[derive(Clone, Copy, Debug, PartialEq, Eq)]
pub struct TransferChecked {
    pub program: Pubkey,
    pub from: Pubkey,
    pub mint: Pubkey,
    pub to: Pubkey,
    pub authority: Pubkey,
    pub amount: u64,
    pub decimals: u8,
    /// The custody record whose seeds sign the movement, where the custody
    /// account signs for itself; `None` where the wallet signs.
    pub signer: Option<TradingAccount>,
}

/// What the guard says of a wallet and the custody account it claims:
/// the wallet is the recorded owner, and the account lies at the address
/// derived for its record.
pub open spec fn custody_guard(
    program: Pubkey,
    user: Signer,
    custody: CustodyAccount,
) -> Result<(), ErrorCode> {
    if custody.data.owner != user.key {
        Err(ErrorCode::Unauthorized)
    } else if custody_address(custody.data, program) != Some(custody.key@) {
        Err(ErrorCode::InvalidCustodyAddress)
    } else {
        Ok(())
    }
}

/// Checks that `user` owns `custody` and that `custody` lies at the address
/// derived for its record under `program`.
pub fn require_custody(program: &Pubkey, user: &Signer, custody: &CustodyAccount) -> (checked:
    Result<(), ErrorCode>)
    ensures
        checked == custody_guard(*program, *user, *custody),
{
    if !custody.data.owner.same(&user.key) {
        return Err(ErrorCode::Unauthorized);
    }
    if !custody.data.is_at(&custody.key, program) {
        return Err(ErrorCode::InvalidCustodyAddress);
    }
    Ok(())
}

/// Whether a token program is one of the two that keep holdings.
pub open spec fn keeps_holdings(program: Pubkey) -> bool {
    program@ == TOKEN_PROGRAM_ID@ || program@ == TOKEN_2022_PROGRAM_ID@
}

/// Decides whether a token program is one of the two that keep holdings.
pub fn is_token_program(program: &Pubkey) -> (known: bool)
    ensures
        known == keeps_holdings(*program),
{
    program.has_bytes(&TOKEN_PROGRAM_ID) || program.has_bytes(&TOKEN_2022_PROGRAM_ID)
}

/// What the guard says of a holding that a request claims for `authority`,
/// of the token `mint`.
pub open spec fn holding_guard(
    holding: TokenAccount,
    authority: Pubkey,
    mint: Pubkey,
) -> Result<(), ErrorCode> {
    if holding.owner != authority || holding.mint != mint {
        Err(ErrorCode::InvalidSubAccount)
    } else {
        Ok(())
    }
}

/// Checks that `holding` is bound to `authority` and is of the token `mint`.
pub fn require_holding(holding: &TokenAccount, authority: &Pubkey, mint: &Pubkey) -> (checked:
    Result<(), ErrorCode>)
    ensures
        checked == holding_guard(*holding, *authority, *mint),
{
    if !holding.owner.same(authority) || !holding.mint.same(mint) {
        return Err(ErrorCode::InvalidSubAccount);
    }
    Ok(())
}

/// What the guard says of the token accounts of a deposit or a withdrawal:
/// the token program is that of the 2022 standard and keeps the token and
/// both holdings, the wallet's holding is the wallet's and the custody
/// account's holding is the custody account's, both of the token.
pub open spec fn token_guard(
    token_program: Pubkey,
    mint: Mint,
    user: Pubkey,
    user_token_account: TokenAccount,
    custody: Pubkey,
    pda_token_account: TokenAccount,
) -> Result<(), ErrorCode> {
    if token_program@ != TOKEN_2022_PROGRAM_ID@ {
        Err(ErrorCode::InvalidProgramId)
    } else if mint.program != token_program || user_token_account.program != token_program
        || pda_token_account.program != token_program {
        Err(ErrorCode::InvalidAssetHandler)
    } else if holding_guard(user_token_account, user, mint.key) is Err {
        Err(ErrorCode::InvalidSubAccount)
    } else {
        holding_guard(pda_token_account, custody, mint.key)
    }
}

/// Checks the token accounts of a deposit or a withdrawal.
pub fn require_token_accounts(
    token_program: &Pubkey,
    mint: &Mint,
    user: &Pubkey,
    user_token_account: &TokenAccount,
    custody: &Pubkey,
    pda_token_account: &TokenAccount,
) -> (checked: Result<(), ErrorCode>)
    ensures
        checked == token_guard(
            *token_program,
            *mint,
            *user,
            *user_token_account,
            *custody,
            *pda_token_account,
        ),
{
    if !token_program.has_bytes(&TOKEN_2022_PROGRAM_ID) {
        return Err(ErrorCode::InvalidProgramId);
    }
    if !mint.program.same(token_program) || !user_token_account.program.same(token_program)
        || !pda_token_account.program.same(token_program) {
        return Err(ErrorCode::InvalidAssetHandler);
    }
    if require_holding(user_token_account, user, &mint.key).is_err() {
        return Err(ErrorCode::InvalidSubAccount);
    }
    require_holding(pda_token_account, custody, &mint.key)
}

/// What a movement of `amount` from a balance of `from` to a balance of `to`
/// leaves: the two new balances, or why nothing moves.
pub open spec fn moved(from: u64, to: u64, amount: u64) -> Result<(u64, u64), ErrorCode> {
    if from < amount {
        Err(ErrorCode::InsufficientBalance)
    } else if to + amount > u64::MAX {
        Err(ErrorCode::Overflow)
    } else {
        Ok(((from - amount) as u64, (to + amount) as u64))
    }
}

/// Moves `amount` from a balance of `from` to a balance of `to`.
pub fn move_balance(from: u64, to: u64, amount: u64) -> (after: Result<(u64, u64), ErrorCode>)
    ensures
        after == moved(from, to, amount),
{
    if from < amount {
        return Err(ErrorCode::InsufficientBalance);
    }
    match to.checked_add(amount) {
        Some(raised) => Ok((from - amount, raised)),
        None => Err(ErrorCode::Overflow),
    }
}

} // verus!
