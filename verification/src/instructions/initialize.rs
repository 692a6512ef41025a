//! Bringing a custody account into being for a wallet.

use crate::accounts::{CustodyAccount, Signer};
use crate::error::ErrorCode;
use crate::pubkey::{found_program_address, Pubkey, SYSTEM_PROGRAM_ID};
use crate::state::trading_account::{custody_address, custody_seeds, TradingAccount};
use vstd::prelude::*;

verus! {

/// The place of a custody account, which may still be empty.
#[derive(Clone, Copy, Debug, PartialEq, Eq)]
pub struct CustodySlot {
    pub key: Pubkey,
    /// The record kept at the place, if there is one.
    pub data: Option<TradingAccount>,
}

/// The accounts of an initialization.
#[derive(Clone, Copy, Debug, PartialEq, Eq)]
pub struct Initialize {
    /// The wallet that will own the account.
    pub user: Signer,
    pub trading_account: CustodySlot,
    pub system_program: Pubkey,
}

impl Initialize {
    /// What the guard says of these accounts: the bump seed of the custody
    /// account's address, or why the request is refused.
    pub open spec fn guard(self, program: Pubkey) -> Result<u8, ErrorCode> {
        if !self.user.is_signer {
            Err(ErrorCode::MissingSignature)
        } else if self.system_program@ != SYSTEM_PROGRAM_ID@ {
            Err(ErrorCode::InvalidProgramId)
        } else {
            match found_program_address(custody_seeds(self.user.key), program@) {
                Some((address, bump)) => if address == self.trading_account.key@ {
                    Ok(bump)
                } else {
                    Err(ErrorCode::InvalidCustodyAddress)
                },
                None => Err(ErrorCode::InvalidCustodyAddress),
            }
        }
    }

    /// Checks the accounts of the request and gives the bump seed of the
    /// custody account's address.
    pub fn validate(&self, program: &Pubkey) -> (checked: Result<u8, ErrorCode>)
        ensures
            checked == self.guard(*program),
            checked matches Ok(bump) ==> custody_address(
                TradingAccount { owner: self.user.key, bump },
                *program,
            ) == Some(self.trading_account.key@),
    {
        if !self.user.is_signer {
            return Err(ErrorCode::MissingSignature);
        }
        if !self.system_program.has_bytes(&SYSTEM_PROGRAM_ID) {
            return Err(ErrorCode::InvalidProgramId);
        }
        match TradingAccount::find(&self.user.key, program) {
            Some((address, record)) => {
                if address.same(&self.trading_account.key) {
                    Ok(record.bump)
                } else {
                    Err(ErrorCode::InvalidCustodyAddress)
                }
            },
            None => Err(ErrorCode::InvalidCustodyAddress),
        }
    }
}

/// Writes the record of a new custody account: the wallet as its owner, and
/// the bump seed of its address. A place that already holds a record is
/// left as it is.
pub fn initialize(ctx: &mut Initialize, bump: u8) -> (done: Result<TradingAccount, ErrorCode>)
    ensures
        match done {
            Ok(record) => {
                &&& old(ctx).trading_account.data is None
                &&& record == (TradingAccount { owner: old(ctx).user.key, bump })
                &&& *final(ctx) == (Initialize {
                    trading_account: CustodySlot { data: Some(record), ..old(ctx).trading_account },
                    ..*old(ctx)
                })
            },
            Err(e) => {
                &&& old(ctx).trading_account.data is Some
                &&& e == ErrorCode::AlreadyInitialized
                &&& *final(ctx) == *old(ctx)
            },
        },
{
    if ctx.trading_account.data.is_some() {
        return Err(ErrorCode::AlreadyInitialized);
    }
    let record = TradingAccount { owner: ctx.user.key, bump };
    ctx.trading_account.data = Some(record);
    Ok(record)
}

/// The custody account that an initialization has made, with its balance
/// of the native currency.
pub fn opened(ctx: &Initialize, lamports: u64) -> (account: Option<CustodyAccount>)
    ensures
        account == match ctx.trading_account.data {
            Some(data) => Some(CustodyAccount { key: ctx.trading_account.key, lamports, data }),
            None => None,
        },
{
    match ctx.trading_account.data {
        Some(data) => Some(CustodyAccount { key: ctx.trading_account.key, lamports, data }),
        None => None,
    }
}

} // verus!
