use anchor_lang::InstructionData;

use tag_the_chart_program::bytes::{push_le, read_le_u128};
use tag_the_chart_program::invoker::{
    account_metas, encode_swap_data, input_is_wsol, swap_accounts, AccountMeta, SwapAccounts,
    SwapCall, SwapParties, SWAP_V2_DATA_LEN, SWAP_V2_FIXED_ACCOUNTS, SWAP_V2_TAG,
};
use tag_the_chart_program::pubkey::{Pubkey, WSOL_MINT};

fn key(tag: u8) -> Pubkey {
    Pubkey::new_from_array([tag; 32])
}

fn wsol() -> Pubkey {
    Pubkey::new_from_array(WSOL_MINT)
}

fn parties(mint_a: Pubkey, mint_b: Pubkey) -> SwapParties {
    SwapParties {
        payer: key(1),
        wsol_account: key(2),
        token_account: key(3),
        amm_config: key(4),
        pool_state: key(5),
        token_vault_a: key(6),
        token_vault_b: key(7),
        token_mint_a: mint_a,
        token_mint_b: mint_b,
        observation_state: key(8),
        token_program: key(9),
        token_program_2022: key(10),
        memo_program: key(11),
    }
}

fn writable(k: Pubkey) -> AccountMeta {
    AccountMeta { pubkey: k, is_signer: false, is_writable: true }
}

fn readonly(k: Pubkey) -> AccountMeta {
    AccountMeta { pubkey: k, is_signer: false, is_writable: false }
}

#[test]
fn little_endian_bytes_are_those_of_std() {
    for x in [0u64, 1, 255, 256, 50_000_000, 0x0102_0304_0506_0708, u64::MAX] {
        let mut out = vec![9u8];
        push_le(&mut out, x as u128, 8);
        assert_eq!(out[0], 9);
        assert_eq!(&out[1..], &x.to_le_bytes());
    }
    for x in [0u128, 1, 1 << 64, 79226673521066979257578248091, u128::MAX] {
        let mut out = Vec::new();
        push_le(&mut out, x, 16);
        assert_eq!(out, x.to_le_bytes().to_vec());
        let mut padded = vec![7u8; 5];
        padded.extend_from_slice(&out);
        padded.push(1);
        assert_eq!(read_le_u128(&padded, 5), Some(x));
        assert_eq!(read_le_u128(&padded, 6), Some((x >> 8) | (1u128 << 120)));
        assert_eq!(read_le_u128(&padded, 7), None);
        assert_eq!(read_le_u128(&padded, usize::MAX), None);
    }
    let mut short = Vec::new();
    push_le(&mut short, 0x0102_03, 2);
    assert_eq!(short, vec![3u8, 2]);
    let mut none = vec![4u8];
    push_le(&mut none, 5, 0);
    assert_eq!(none, vec![4u8]);
}

#[test]
fn swap_tag_is_that_of_the_pool() {
    let data = raydium_amm_v3::instruction::SwapV2 {
        amount: 0,
        other_amount_threshold: 0,
        sqrt_price_limit_x64: 0,
        is_base_input: false,
    }
    .data();
    assert_eq!(&data[..8], &SWAP_V2_TAG);
    assert_eq!(SWAP_V2_TAG, [43, 4, 237, 11, 26, 201, 30, 98]);
}

#[test]
fn written_arguments_are_those_of_the_structured_call() {
    let cases: [(u64, u64, u128, bool); 5] = [
        (0, 0, 0, false),
        (50_000_000, 0, 1 << 64, true),
        (u64::MAX, 0, 79226673521066979257578248091, true),
        (1, 2, 3, false),
        (0x1122_3344_5566_7788, 0x99aa_bbcc_ddee_ff00, u128::MAX, true),
    ];
    for (amount, threshold, limit, exact) in cases {
        let structured = raydium_amm_v3::instruction::SwapV2 {
            amount,
            other_amount_threshold: threshold,
            sqrt_price_limit_x64: limit,
            is_base_input: exact,
        }
        .data();
        let written = encode_swap_data(amount, threshold, limit, exact);
        assert_eq!(written.len(), SWAP_V2_DATA_LEN);
        assert_eq!(written, structured);
    }
}

#[test]
fn written_arguments_have_the_fixed_layout() {
    let data = encode_swap_data(0x0102, 0x0304, 0x0506, true);
    let mut expected = vec![43u8, 4, 237, 11, 26, 201, 30, 98];
    expected.extend_from_slice(&[2, 1, 0, 0, 0, 0, 0, 0]);
    expected.extend_from_slice(&[4, 3, 0, 0, 0, 0, 0, 0]);
    expected.extend_from_slice(&[6, 5, 0, 0, 0, 0, 0, 0, 0, 0, 0, 0, 0, 0, 0, 0]);
    expected.push(1);
    assert_eq!(data, expected);
    assert_eq!(data.len(), 41);
    assert_eq!(encode_swap_data(0x0102, 0x0304, 0x0506, false)[40], 0);
}

#[test]
fn roles_follow_direction_and_side_of_the_native_mint() {
    // mint A is the wrapped native currency
    let p = parties(wsol(), key(21));
    let a_to_b = swap_accounts(&p, true);
    assert_eq!(
        a_to_b,
        SwapAccounts {
            payer: key(1),
            amm_config: key(4),
            pool_state: key(5),
            input_token_account: key(2),
            output_token_account: key(3),
            input_vault: key(6),
            output_vault: key(7),
            observation_state: key(8),
            token_program: key(9),
            token_program_2022: key(10),
            memo_program: key(11),
            input_vault_mint: wsol(),
            output_vault_mint: key(21),
        }
    );
    let b_to_a = swap_accounts(&p, false);
    assert_eq!(b_to_a.input_token_account, key(3));
    assert_eq!(b_to_a.output_token_account, key(2));
    assert_eq!(b_to_a.input_vault, key(7));
    assert_eq!(b_to_a.output_vault, key(6));
    assert_eq!(b_to_a.input_vault_mint, key(21));
    assert_eq!(b_to_a.output_vault_mint, wsol());

    // mint B is the wrapped native currency
    let q = parties(key(20), wsol());
    let a_to_b = swap_accounts(&q, true);
    assert_eq!(a_to_b.input_token_account, key(3));
    assert_eq!(a_to_b.output_token_account, key(2));
    assert_eq!(a_to_b.input_vault, key(6));
    assert_eq!(a_to_b.input_vault_mint, key(20));
    let b_to_a = swap_accounts(&q, false);
    assert_eq!(b_to_a.input_token_account, key(2));
    assert_eq!(b_to_a.output_token_account, key(3));
    assert_eq!(b_to_a.input_vault, key(7));
    assert_eq!(b_to_a.input_vault_mint, wsol());

    assert!(input_is_wsol(&wsol(), true));
    assert!(!input_is_wsol(&wsol(), false));
    assert!(!input_is_wsol(&key(20), true));
    assert!(input_is_wsol(&key(20), false));
}

#[test]
fn accounts_are_listed_in_the_order_of_the_call() {
    let accounts = swap_accounts(&parties(wsol(), key(21)), true);
    let remaining = vec![key(30), key(31), key(32)];
    let metas = account_metas(&accounts, &remaining);
    assert_eq!(metas.len(), SWAP_V2_FIXED_ACCOUNTS + 3);
    let expected = vec![
        AccountMeta { pubkey: key(1), is_signer: true, is_writable: true },
        readonly(key(4)),
        writable(key(5)),
        writable(key(2)),
        writable(key(3)),
        writable(key(6)),
        writable(key(7)),
        writable(key(8)),
        readonly(key(9)),
        readonly(key(10)),
        readonly(key(11)),
        readonly(wsol()),
        readonly(key(21)),
        writable(key(30)),
        writable(key(31)),
        writable(key(32)),
    ];
    assert_eq!(metas, expected);
    assert_eq!(account_metas(&accounts, &Vec::new()), expected[..13].to_vec());
    assert_eq!(AccountMeta::new(key(1), true), expected[0]);
    assert_eq!(AccountMeta::new_readonly(key(4), false), expected[1]);
}

#[test]
fn a_call_is_written_down_with_its_program_accounts_and_bytes() {
    let accounts = swap_accounts(&parties(key(20), wsol()), false);
    let call = SwapCall {
        program: key(40),
        accounts,
        remaining_accounts: vec![key(30)],
        amount: 123,
        other_amount_threshold: 45,
        sqrt_price_limit_x64: 1 << 70,
        is_base_input: true,
        signer: None,
    };
    let written = call.instruction();
    assert_eq!(written.program_id, key(40));
    assert_eq!(written.accounts, account_metas(&accounts, &vec![key(30)]));
    assert_eq!(written.data, encode_swap_data(123, 45, 1 << 70, true));
    assert_eq!(written.accounts.len(), 14);
}
