use std::str::FromStr;

use tag_the_chart_program::accounts::{
    CustodyAccount, Mint, Signer, TokenAccount, Transfer, TransferChecked,
};
use tag_the_chart_program::error::ErrorCode;
use tag_the_chart_program::instructions::deposit::{DepositSol, DepositTokens};
use tag_the_chart_program::instructions::initialize::{opened, CustodySlot, Initialize};
use tag_the_chart_program::instructions::withdraw::{available, WithdrawSol, WithdrawTokens};
use tag_the_chart_program::pubkey::{Pubkey, SYSTEM_PROGRAM_ID, TOKEN_2022_PROGRAM_ID, TOKEN_PROGRAM_ID};
use tag_the_chart_program::state::trading_account::{TradingAccount, DISCRIMINATOR};
use tag_the_chart_program::{
    deposit_sol, deposit_tokens, id, initialize, withdraw_sol, withdraw_tokens, ID,
};

const RENT: u64 = 1_176_240;

fn key(tag: u8) -> Pubkey {
    let mut bytes = [0u8; 32];
    bytes[0] = tag;
    bytes[31] = 7;
    Pubkey::new_from_array(bytes)
}

fn wallet(tag: u8, lamports: u64) -> Signer {
    Signer { key: key(tag), is_signer: true, lamports }
}

fn custody_of(owner: &Signer, lamports: u64) -> CustodyAccount {
    let (address, record) = TradingAccount::find(&owner.key, &id()).unwrap();
    CustodyAccount { key: address, lamports, data: record }
}

fn system() -> Pubkey {
    Pubkey::new_from_array(SYSTEM_PROGRAM_ID)
}

fn token_2022() -> Pubkey {
    Pubkey::new_from_array(TOKEN_2022_PROGRAM_ID)
}

fn mint() -> Mint {
    Mint { key: key(50), decimals: 6, program: token_2022() }
}

fn holding(tag: u8, owner: Pubkey, amount: u64) -> TokenAccount {
    TokenAccount { key: key(tag), mint: key(50), owner, amount, program: token_2022() }
}

fn token_deposit(user_amount: u64, custody_amount: u64) -> DepositTokens {
    let user = wallet(1, 0);
    let custody = custody_of(&user, RENT);
    DepositTokens {
        user,
        trading_account: custody,
        user_token_account: holding(60, user.key, user_amount),
        pda_token_account: holding(61, custody.key, custody_amount),
        mint: mint(),
        token_program: token_2022(),
    }
}

fn token_withdrawal(d: &DepositTokens) -> WithdrawTokens {
    WithdrawTokens {
        user: d.user,
        trading_account: d.trading_account,
        pda_token_account: d.pda_token_account,
        user_token_account: d.user_token_account,
        mint: d.mint,
        token_program: d.token_program,
    }
}

#[test]
fn program_address_is_the_declared_one() {
    let declared =
        anchor_lang::prelude::Pubkey::from_str("75SUaVzpGhU8R1TGJeS4zK4vBWWr1YtAQtWbNwY2C2or")
            .unwrap();
    assert_eq!(ID, declared.to_bytes());
    assert_eq!(id().to_bytes(), declared.to_bytes());
}

#[test]
fn record_length_is_tag_owner_and_bump() {
    assert_eq!(TradingAccount::LEN, 41);
}

#[test]
fn custody_address_is_the_one_the_sdk_derives() {
    let owner = key(1);
    let program = anchor_lang::prelude::Pubkey::new_from_array(ID);
    let (expected, bump) = anchor_lang::prelude::Pubkey::find_program_address(
        &[b"trading_account", &owner.to_bytes()],
        &program,
    );
    let (address, record) = TradingAccount::find(&owner, &id()).unwrap();
    assert_eq!(address.to_bytes(), expected.to_bytes());
    assert_eq!(record.bump, bump);
    assert_eq!(record.owner, owner);
    assert_eq!(record.address(&id()), Some(address));
    assert!(record.is_at(&address, &id()));
    assert!(!record.is_at(&owner, &id()));
    let other = TradingAccount { owner: key(2), bump };
    assert_ne!(other.address(&id()), Some(address));
}

#[test]
fn signer_seeds_are_tag_owner_bump() {
    let record = TradingAccount { owner: key(9), bump: 254 };
    let seeds = record.signer_seeds();
    assert_eq!(seeds.len(), 3);
    assert_eq!(seeds[0], b"trading_account".to_vec());
    assert_eq!(seeds[1], key(9).to_bytes().to_vec());
    assert_eq!(seeds[2], vec![254u8]);
    let sought = TradingAccount::seeds(&key(9));
    assert_eq!(sought, vec![b"trading_account".to_vec(), key(9).to_bytes().to_vec()]);
}

#[test]
fn initialize_writes_owner_and_bump() {
    let user = wallet(1, 10);
    let (address, record) = TradingAccount::find(&user.key, &id()).unwrap();
    let mut ctx = Initialize {
        user,
        trading_account: CustodySlot { key: address, data: None },
        system_program: system(),
    };
    assert_eq!(initialize(&mut ctx), Ok(record));
    assert_eq!(ctx.trading_account.data, Some(record));
    assert_eq!(
        opened(&ctx, 5),
        Some(CustodyAccount { key: address, lamports: 5, data: record })
    );
    // the account that was made is accepted by a later deposit
    let mut deposit = DepositSol {
        user: wallet(1, 10),
        trading_account: opened(&ctx, 5).unwrap(),
        system_program: system(),
    };
    assert!(deposit_sol(&mut deposit, 3).is_ok());
}

#[test]
fn initialize_twice_fails_already_initialized() {
    let user = wallet(1, 10);
    let (address, _) = TradingAccount::find(&user.key, &id()).unwrap();
    let mut ctx = Initialize {
        user,
        trading_account: CustodySlot { key: address, data: None },
        system_program: system(),
    };
    let record = initialize(&mut ctx).unwrap();
    assert_eq!(initialize(&mut ctx), Err(ErrorCode::AlreadyInitialized));
    assert_eq!(ctx.trading_account.data, Some(record));
}

#[test]
fn initialize_refuses_wrong_place_signature_and_program() {
    let user = wallet(1, 10);
    let (address, _) = TradingAccount::find(&user.key, &id()).unwrap();
    let mut wrong_place = Initialize {
        user,
        trading_account: CustodySlot { key: key(77), data: None },
        system_program: system(),
    };
    assert_eq!(initialize(&mut wrong_place), Err(ErrorCode::InvalidCustodyAddress));
    assert_eq!(wrong_place.trading_account.data, None);
    let mut unsigned = Initialize {
        user: Signer { is_signer: false, ..user },
        trading_account: CustodySlot { key: address, data: None },
        system_program: system(),
    };
    assert_eq!(initialize(&mut unsigned), Err(ErrorCode::MissingSignature));
    let mut wrong_program = Initialize {
        user,
        trading_account: CustodySlot { key: address, data: None },
        system_program: key(3),
    };
    assert_eq!(initialize(&mut wrong_program), Err(ErrorCode::InvalidProgramId));
}

#[test]
fn deposit_then_withdraw_then_one_more() {
    // the custody account holds nothing beyond its reserve
    let user = wallet(1, 5_000_000);
    let custody = custody_of(&user, RENT);
    let mut deposit = DepositSol { user, trading_account: custody, system_program: system() };
    let moved = deposit_sol(&mut deposit, 1_000_000).unwrap();
    assert_eq!(
        moved,
        Transfer { from: user.key, to: custody.key, lamports: 1_000_000, signer: None }
    );
    assert_eq!(deposit.trading_account.lamports, RENT + 1_000_000);
    assert_eq!(deposit.user.lamports, 4_000_000);

    let mut withdrawal = WithdrawSol {
        user: deposit.user,
        trading_account: deposit.trading_account,
        system_program: system(),
    };
    let back = withdraw_sol(&mut withdrawal, RENT, 1_000_000).unwrap();
    assert_eq!(
        back,
        Transfer {
            from: custody.key,
            to: user.key,
            lamports: 1_000_000,
            signer: Some(custody.data),
        }
    );
    assert_eq!(withdrawal.trading_account.lamports, RENT);
    assert_eq!(available(withdrawal.trading_account.lamports, RENT), 0);
    assert_eq!(withdrawal.user.lamports, 5_000_000);

    assert_eq!(withdraw_sol(&mut withdrawal, RENT, 1), Err(ErrorCode::InsufficientBalance));
    assert_eq!(withdrawal.trading_account.lamports, RENT);
    assert_eq!(withdrawal.user.lamports, 5_000_000);
}

#[test]
fn token_deposit_then_withdraw_then_one_more() {
    let mut deposit = token_deposit(1_000_000, 0);
    let user = deposit.user;
    let custody = deposit.trading_account;
    let moved = deposit_tokens(&mut deposit, 1_000_000).unwrap();
    assert_eq!(
        moved,
        TransferChecked {
            program: token_2022(),
            from: key(60),
            mint: key(50),
            to: key(61),
            authority: user.key,
            amount: 1_000_000,
            decimals: 6,
            signer: None,
        }
    );
    assert_eq!(deposit.pda_token_account.amount, 1_000_000);
    assert_eq!(deposit.user_token_account.amount, 0);

    let mut withdrawal = token_withdrawal(&deposit);
    let back = withdraw_tokens(&mut withdrawal, 1_000_000).unwrap();
    assert_eq!(
        back,
        TransferChecked {
            program: token_2022(),
            from: key(61),
            mint: key(50),
            to: key(60),
            authority: custody.key,
            amount: 1_000_000,
            decimals: 6,
            signer: Some(custody.data),
        }
    );
    assert_eq!(withdrawal.pda_token_account.amount, 0);
    assert_eq!(withdrawal.user_token_account.amount, 1_000_000);
    assert_eq!(withdraw_tokens(&mut withdrawal, 1), Err(ErrorCode::InsufficientBalance));
    assert_eq!(withdrawal.pda_token_account.amount, 0);
}

#[test]
fn withdrawal_by_another_signer_is_unauthorized() {
    let owner = wallet(1, 0);
    let custody = custody_of(&owner, RENT + 500);
    let intruder = wallet(2, 10);
    let mut ctx = WithdrawSol { user: intruder, trading_account: custody, system_program: system() };
    assert_eq!(withdraw_sol(&mut ctx, RENT, 100), Err(ErrorCode::Unauthorized));
    assert_eq!(ctx.trading_account.lamports, RENT + 500);
    assert_eq!(ctx.user.lamports, 10);

    let mut tokens = token_withdrawal(&token_deposit(0, 900));
    tokens.user = intruder;
    assert_eq!(withdraw_tokens(&mut tokens, 100), Err(ErrorCode::Unauthorized));
    assert_eq!(tokens.pda_token_account.amount, 900);
    assert_eq!(tokens.user_token_account.amount, 0);
}

#[test]
fn reserve_does_not_leave() {
    assert_eq!(available(RENT + 10, RENT), 10);
    assert_eq!(available(RENT, RENT), 0);
    assert_eq!(available(RENT - 1, RENT), 0);
    assert_eq!(available(0, RENT), 0);
    let user = wallet(1, 0);
    let custody = custody_of(&user, RENT + 10);
    let mut ctx = WithdrawSol { user, trading_account: custody, system_program: system() };
    assert_eq!(withdraw_sol(&mut ctx, RENT, 11), Err(ErrorCode::InsufficientBalance));
    assert_eq!(withdraw_sol(&mut ctx, RENT, RENT + 10), Err(ErrorCode::InsufficientBalance));
    assert!(withdraw_sol(&mut ctx, RENT, 10).is_ok());
    assert_eq!(ctx.trading_account.lamports, RENT);
    assert_eq!(ctx.user.lamports, 10);
}

#[test]
fn zero_amounts_are_invalid() {
    let user = wallet(1, 100);
    let custody = custody_of(&user, RENT + 100);
    let mut d = DepositSol { user, trading_account: custody, system_program: system() };
    assert_eq!(deposit_sol(&mut d, 0), Err(ErrorCode::InvalidAmount));
    let mut w = WithdrawSol { user, trading_account: custody, system_program: system() };
    assert_eq!(withdraw_sol(&mut w, RENT, 0), Err(ErrorCode::InvalidAmount));
    let mut dt = token_deposit(5, 5);
    assert_eq!(deposit_tokens(&mut dt, 0), Err(ErrorCode::InvalidAmount));
    let mut wt = token_withdrawal(&dt);
    assert_eq!(withdraw_tokens(&mut wt, 0), Err(ErrorCode::InvalidAmount));
}

#[test]
fn deposits_fail_on_lack_of_funds_and_on_overflow() {
    let user = wallet(1, 100);
    let custody = custody_of(&user, RENT);
    let mut d = DepositSol { user, trading_account: custody, system_program: system() };
    assert_eq!(deposit_sol(&mut d, 101), Err(ErrorCode::InsufficientBalance));
    assert_eq!(d.user.lamports, 100);
    let mut full = DepositSol {
        user,
        trading_account: CustodyAccount { lamports: u64::MAX - 5, ..custody },
        system_program: system(),
    };
    assert_eq!(deposit_sol(&mut full, 6), Err(ErrorCode::Overflow));
    assert_eq!(full.trading_account.lamports, u64::MAX - 5);
    assert!(deposit_sol(&mut full, 5).is_ok());
    assert_eq!(full.trading_account.lamports, u64::MAX);

    let mut dt = token_deposit(10, u64::MAX - 1);
    assert_eq!(deposit_tokens(&mut dt, 11), Err(ErrorCode::InsufficientBalance));
    assert_eq!(deposit_tokens(&mut dt, 2), Err(ErrorCode::Overflow));
    assert_eq!(dt.user_token_account.amount, 10);
    let mut wt = token_withdrawal(&token_deposit(u64::MAX, 10));
    assert_eq!(withdraw_tokens(&mut wt, 1), Err(ErrorCode::Overflow));
}

#[test]
fn guard_refuses_what_is_not_bound() {
    let user = wallet(1, 100);
    let custody = custody_of(&user, RENT);

    let mut unsigned =
        DepositSol { user: Signer { is_signer: false, ..user }, trading_account: custody, system_program: system() };
    assert_eq!(deposit_sol(&mut unsigned, 1), Err(ErrorCode::MissingSignature));

    let mut wrong_program = DepositSol { user, trading_account: custody, system_program: key(4) };
    assert_eq!(deposit_sol(&mut wrong_program, 1), Err(ErrorCode::InvalidProgramId));

    let moved = CustodyAccount { key: key(70), ..custody };
    let mut elsewhere = DepositSol { user, trading_account: moved, system_program: system() };
    assert_eq!(deposit_sol(&mut elsewhere, 1), Err(ErrorCode::InvalidCustodyAddress));

    let bumped = CustodyAccount {
        data: TradingAccount { bump: custody.data.bump.wrapping_sub(1), ..custody.data },
        ..custody
    };
    let mut wrong_bump = DepositSol { user, trading_account: bumped, system_program: system() };
    assert_eq!(deposit_sol(&mut wrong_bump, 1), Err(ErrorCode::InvalidCustodyAddress));

    let mut legacy = token_deposit(10, 0);
    legacy.token_program = Pubkey::new_from_array(TOKEN_PROGRAM_ID);
    assert_eq!(deposit_tokens(&mut legacy, 1), Err(ErrorCode::InvalidProgramId));

    let mut other_handler = token_deposit(10, 0);
    other_handler.user_token_account.program = Pubkey::new_from_array(TOKEN_PROGRAM_ID);
    assert_eq!(deposit_tokens(&mut other_handler, 1), Err(ErrorCode::InvalidAssetHandler));

    let mut foreign = token_deposit(10, 0);
    foreign.pda_token_account.owner = key(99);
    assert_eq!(deposit_tokens(&mut foreign, 1), Err(ErrorCode::InvalidSubAccount));

    let mut other_mint = token_deposit(10, 0);
    other_mint.user_token_account.mint = key(98);
    assert_eq!(deposit_tokens(&mut other_mint, 1), Err(ErrorCode::InvalidSubAccount));
    assert_eq!(other_mint.user_token_account.amount, 10);
}

#[test]
fn record_is_stored_as_tag_owner_bump() {
    let hashed = anchor_lang::solana_program::hash::hash(b"account:TradingAccount").to_bytes();
    assert_eq!(DISCRIMINATOR, hashed[..8]);

    let record = TradingAccount { owner: key(5), bump: 253 };
    let data = record.try_serialize();
    assert_eq!(data.len(), TradingAccount::LEN);
    assert_eq!(data[..8], DISCRIMINATOR);
    assert_eq!(data[8..40], key(5).to_bytes());
    assert_eq!(data[40], 253);
    assert_eq!(TradingAccount::try_deserialize(&data), Some(record));

    let mut longer = data.clone();
    longer.extend_from_slice(&[1, 2, 3]);
    assert_eq!(TradingAccount::try_deserialize(&longer), Some(record));
    let mut shorter = data.clone();
    shorter.pop();
    assert_eq!(TradingAccount::try_deserialize(&shorter), None);
    let mut other_tag = data.clone();
    other_tag[7] ^= 1;
    assert_eq!(TradingAccount::try_deserialize(&other_tag), None);
    assert_eq!(TradingAccount::try_deserialize(&Vec::new()), None);
}
