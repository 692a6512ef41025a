//! The reasons for which a request is refused.

use vstd::prelude::*;

verus! {

/// Why an operation failed. Every failure ends the operation in which it
/// occurs; nothing is retried.
#[derive(Clone, Copy, Debug, PartialEq, Eq, Structural)]
pub enum ErrorCode {
    /// The amount requested is zero.
    InvalidAmount,
    /// The signer is not the owner of the custody account.
    Unauthorized,
    /// The amount exceeds the funds available in the holding it leaves.
    InsufficientBalance,
    /// A balance would exceed what its holding can record.
    Overflow,
    /// A balance would fall below zero.
    Underflow,
    /// A custody account already exists for the owner.
    AlreadyInitialized,
    /// The handler named in the request is not the one the asset belongs to.
    InvalidAssetHandler,
    /// The pool snapshot is malformed or inconsistent with the request.
    InvalidPoolData,
    /// The wrapped-native holding is not the wallet's associated one.
    InvalidWsolAta,
    /// The realized price lies outside the tolerance band of the target.
    PriceNotReached,
    /// The request was not signed by the wallet it names.
    MissingSignature,
    /// The custody account is not at the address derived for its owner.
    InvalidCustodyAddress,
    /// A holding is not bound to the account that the request claims for it.
    InvalidSubAccount,
    /// A program named in the request is not the expected one.
    InvalidProgramId,
    /// A step of a candle was asked for out of its order.
    OutOfSequence,
}

} // verus!
