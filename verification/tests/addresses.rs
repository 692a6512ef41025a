use std::str::FromStr;

use tag_the_chart_program::pubkey::{
    associated_token_address, bytes_to_vec, copy_keys, Pubkey, ASSOCIATED_TOKEN_PROGRAM_ID,
    MEMO_PROGRAM_ID, SYSTEM_PROGRAM_ID, TOKEN_2022_PROGRAM_ID, TOKEN_PROGRAM_ID, WSOL_MINT,
};

fn sdk(text: &str) -> [u8; 32] {
    anchor_lang::prelude::Pubkey::from_str(text).unwrap().to_bytes()
}

#[test]
fn well_known_addresses_are_those_of_the_sdk() {
    assert_eq!(WSOL_MINT, sdk("So11111111111111111111111111111111111111112"));
    assert_eq!(WSOL_MINT, spl_token::native_mint::ID.to_bytes());
    assert_eq!(TOKEN_PROGRAM_ID, spl_token::ID.to_bytes());
    assert_eq!(TOKEN_2022_PROGRAM_ID, anchor_spl::token_2022::ID.to_bytes());
    assert_eq!(ASSOCIATED_TOKEN_PROGRAM_ID, anchor_spl::associated_token::ID.to_bytes());
    assert_eq!(MEMO_PROGRAM_ID, sdk("MemoSq4gqABAXKb96qnH8TysNcWxMyWCqXgDLGmfcHr"));
    assert_eq!(MEMO_PROGRAM_ID, spl_memo::ID.to_bytes());
    assert_eq!(SYSTEM_PROGRAM_ID, anchor_lang::system_program::ID.to_bytes());
}

#[test]
fn associated_address_is_the_one_the_token_library_gives() {
    for tag in [0u8, 1, 2, 77, 255] {
        let mut bytes = [3u8; 32];
        bytes[5] = tag;
        let wallet = Pubkey::new_from_array(bytes);
        let mint = Pubkey::new_from_array(WSOL_MINT);
        let expected = anchor_spl::associated_token::get_associated_token_address(
            &anchor_lang::prelude::Pubkey::new_from_array(bytes),
            &spl_token::native_mint::ID,
        );
        let found = associated_token_address(&wallet, &mint).unwrap();
        assert_eq!(found.to_bytes(), expected.to_bytes());
        assert_ne!(found, wallet);
    }
}

#[test]
fn addresses_compare_by_their_bytes() {
    let a = Pubkey::new_from_array([1u8; 32]);
    let mut other = [1u8; 32];
    other[31] = 2;
    let b = Pubkey::new_from_array(other);
    assert!(a.same(&a));
    assert!(!a.same(&b));
    assert!(!b.same(&a));
    assert!(a.has_bytes(&[1u8; 32]));
    assert!(!a.has_bytes(&other));
    assert_eq!(a.to_bytes(), [1u8; 32]);
    assert_eq!(bytes_to_vec(&other), other.to_vec());
    assert_eq!(copy_keys(&vec![a, b, a]), vec![a, b, a]);
    assert_eq!(copy_keys(&Vec::new()), Vec::<Pubkey>::new());
}
