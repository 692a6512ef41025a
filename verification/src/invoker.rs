//! The swap invoker: which accounts a leg names to the pool, in which
//! order, and how the call is written down, as a record or as bytes.

use crate::bytes::{
    le_bytes, le_value, lemma_le_bytes_len, lemma_le_round_trip, lemma_pow256_values, push_le,
};
use crate::pubkey::{Pubkey, WSOL_MINT};
use crate::state::trading_account::TradingAccount;
use vstd::prelude::*;

verus! {

/// The tag of eight bytes that names the pool's swap operation.
pub const SWAP_V2_TAG: [u8; 8] = [43, 4, 237, 11, 26, 201, 30, 98];

/// The length of the encoded arguments of a swap: the tag, two amounts of
/// eight bytes, a price of sixteen, and one flag.
pub const SWAP_V2_DATA_LEN: usize = 41;

/// The number of accounts that every swap names, before the pool's own
/// auxiliary accounts.
pub const SWAP_V2_FIXED_ACCOUNTS: usize = 13;

/// The pool, its surroundings, and the two holdings between which the legs
/// of a candle trade.
#[derive(Clone, Copy, Debug, PartialEq, Eq)]
pub struct SwapParties {
    /// The account that pays and signs.
    pub payer: Pubkey,
    /// The payer's holding of the wrapped native currency.
    pub wsol_account: Pubkey,
    /// The payer's holding of the other token.
    pub token_account: Pubkey,
    pub amm_config: Pubkey,
    pub pool_state: Pubkey,
    pub token_vault_a: Pubkey,
    pub token_vault_b: Pubkey,
    pub token_mint_a: Pubkey,
    pub token_mint_b: Pubkey,
    pub observation_state: Pubkey,
    pub token_program: Pubkey,
    pub token_program_2022: Pubkey,
    pub memo_program: Pubkey,
}

/// The accounts of one swap, each in its role.
#[derive(Clone, Copy, Debug, PartialEq, Eq)]
pub struct SwapAccounts {
    pub payer: Pubkey,
    pub amm_config: Pubkey,
    pub pool_state: Pubkey,
    pub input_token_account: Pubkey,
    pub output_token_account: Pubkey,
    pub input_vault: Pubkey,
    pub output_vault: Pubkey,
    pub observation_state: Pubkey,
    pub token_program: Pubkey,
    pub token_program_2022: Pubkey,
    pub memo_program: Pubkey,
    pub input_vault_mint: Pubkey,
    pub output_vault_mint: Pubkey,
}

/// One swap as a record: the program to call, the accounts in their roles,
/// the pool's auxiliary accounts, the arguments, and who signs.
#[derive(Debug, PartialEq, Eq)]
pub struct SwapCall {
    pub program: Pubkey,
    pub accounts: SwapAccounts,
    /// The auxiliary accounts that the pool asks for, in the caller's order.
    pub remaining_accounts: Vec<Pubkey>,
    pub amount: u64,
    pub other_amount_threshold: u64,
    pub sqrt_price_limit_x64: u128,
    pub is_base_input: bool,
    /// The custody record whose seeds sign the call, where the custody
    /// account pays; `None` where a wallet pays.
    pub signer: Option<TradingAccount>,
}

/// An account in the list of a call.
#[derive(Clone, Copy, Debug, PartialEq, Eq)]
pub struct AccountMeta {
    pub pubkey: Pubkey,
    pub is_signer: bool,
    pub is_writable: bool,
}

/// A call written down for the runtime: program, accounts, bytes.
#[derive(Debug, PartialEq, Eq)]
pub struct Instruction {
    pub program_id: Pubkey,
    pub accounts: Vec<AccountMeta>,
    pub data: Vec<u8>,
}

impl AccountMeta {
    /// An account that the call may write to.
    pub open spec fn spec_new(pubkey: Pubkey, is_signer: bool) -> AccountMeta {
        AccountMeta { pubkey, is_signer, is_writable: true }
    }

    /// An account that the call only reads.
    pub open spec fn spec_new_readonly(pubkey: Pubkey, is_signer: bool) -> AccountMeta {
        AccountMeta { pubkey, is_signer, is_writable: false }
    }

    /// An account that the call may write to.
    pub fn new(pubkey: Pubkey, is_signer: bool) -> (meta: AccountMeta)
        ensures
            meta == Self::spec_new(pubkey, is_signer),
    {
        AccountMeta { pubkey, is_signer, is_writable: true }
    }

    /// An account that the call only reads.
    pub fn new_readonly(pubkey: Pubkey, is_signer: bool) -> (meta: AccountMeta)
        ensures
            meta == Self::spec_new_readonly(pubkey, is_signer),
    {
        AccountMeta { pubkey, is_signer, is_writable: false }
    }
}

/// Whether the input of a leg is the wrapped native currency: a leg in the
/// direction from A to B takes token A in, the other direction token B.
pub open spec fn spec_input_is_wsol(token_mint_a: Pubkey, a_for_b: bool) -> bool {
    a_for_b == (token_mint_a@ == WSOL_MINT@)
}

/// Whether the input of a leg is the wrapped native currency.
pub fn input_is_wsol(token_mint_a: &Pubkey, a_for_b: bool) -> (wsol: bool)
    ensures
        wsol == spec_input_is_wsol(*token_mint_a, a_for_b),
{
    a_for_b == token_mint_a.has_bytes(&WSOL_MINT)
}

/// The accounts of a leg in their roles: in the direction from A to B the
/// input side is vault A and mint A, and the input holding is the one of
/// token A; in the other direction the sides change places.
pub open spec fn spec_swap_accounts(parties: SwapParties, a_for_b: bool) -> SwapAccounts {
    let wsol_in = spec_input_is_wsol(parties.token_mint_a, a_for_b);
    SwapAccounts {
        payer: parties.payer,
        amm_config: parties.amm_config,
        pool_state: parties.pool_state,
        input_token_account: if wsol_in {
            parties.wsol_account
        } else {
            parties.token_account
        },
        output_token_account: if wsol_in {
            parties.token_account
        } else {
            parties.wsol_account
        },
        input_vault: if a_for_b {
            parties.token_vault_a
        } else {
            parties.token_vault_b
        },
        output_vault: if a_for_b {
            parties.token_vault_b
        } else {
            parties.token_vault_a
        },
        observation_state: parties.observation_state,
        token_program: parties.token_program,
        token_program_2022: parties.token_program_2022,
        memo_program: parties.memo_program,
        input_vault_mint: if a_for_b {
            parties.token_mint_a
        } else {
            parties.token_mint_b
        },
        output_vault_mint: if a_for_b {
            parties.token_mint_b
        } else {
            parties.token_mint_a
        },
    }
}

/// Puts the accounts of a leg in their roles.
pub fn swap_accounts(parties: &SwapParties, a_for_b: bool) -> (accounts: SwapAccounts)
    ensures
        accounts == spec_swap_accounts(*parties, a_for_b),
{
    let (input_token_account, output_token_account) = if input_is_wsol(
        &parties.token_mint_a,
        a_for_b,
    ) {
        (parties.wsol_account, parties.token_account)
    } else {
        (parties.token_account, parties.wsol_account)
    };
    let (input_vault, output_vault, input_vault_mint, output_vault_mint) = if a_for_b {
        (parties.token_vault_a, parties.token_vault_b, parties.token_mint_a, parties.token_mint_b)
    } else {
        (parties.token_vault_b, parties.token_vault_a, parties.token_mint_b, parties.token_mint_a)
    };
    SwapAccounts {
        payer: parties.payer,
        amm_config: parties.amm_config,
        pool_state: parties.pool_state,
        input_token_account,
        output_token_account,
        input_vault,
        output_vault,
        observation_state: parties.observation_state,
        token_program: parties.token_program,
        token_program_2022: parties.token_program_2022,
        memo_program: parties.memo_program,
        input_vault_mint,
        output_vault_mint,
    }
}

/// The byte of a flag.
pub open spec fn flag_byte(flag: bool) -> u8 {
    if flag {
        1
    } else {
        0
    }
}

/// The arguments of a swap as bytes: the tag, then little-endian the amount
/// (8 bytes), the least output (8 bytes), the price limit (16 bytes), and
/// the flag of an exact input (1 byte).
pub open spec fn spec_swap_data(
    amount: u64,
    other_amount_threshold: u64,
    sqrt_price_limit_x64: u128,
    is_base_input: bool,
) -> Seq<u8> {
    SWAP_V2_TAG@ + le_bytes(amount as nat, 8) + le_bytes(other_amount_threshold as nat, 8)
        + le_bytes(sqrt_price_limit_x64 as nat, 16) + seq![flag_byte(is_base_input)]
}

/// The encoded arguments of a swap have a fixed length.
pub proof fn lemma_swap_data_len(
    amount: u64,
    other_amount_threshold: u64,
    sqrt_price_limit_x64: u128,
    is_base_input: bool,
)
    ensures
        spec_swap_data(amount, other_amount_threshold, sqrt_price_limit_x64, is_base_input).len()
            == SWAP_V2_DATA_LEN,
{
    lemma_le_bytes_len(amount as nat, 8);
    lemma_le_bytes_len(other_amount_threshold as nat, 8);
    lemma_le_bytes_len(sqrt_price_limit_x64 as nat, 16);
}

/// The parts of the encoded arguments of a swap, read back from the bytes.
pub proof fn lemma_swap_data_parts(
    amount: u64,
    other_amount_threshold: u64,
    sqrt_price_limit_x64: u128,
    is_base_input: bool,
)
    ensures
        ({
            let data = spec_swap_data(
                amount,
                other_amount_threshold,
                sqrt_price_limit_x64,
                is_base_input,
            );
            &&& data.len() == 41
            &&& data.subrange(0, 8) == SWAP_V2_TAG@
            &&& le_value(data.subrange(8, 16)) == amount
            &&& le_value(data.subrange(16, 24)) == other_amount_threshold
            &&& le_value(data.subrange(24, 40)) == sqrt_price_limit_x64
            &&& data[40] == flag_byte(is_base_input)
        }),
{
    let data = spec_swap_data(amount, other_amount_threshold, sqrt_price_limit_x64, is_base_input);
    lemma_le_bytes_len(amount as nat, 8);
    lemma_le_bytes_len(other_amount_threshold as nat, 8);
    lemma_le_bytes_len(sqrt_price_limit_x64 as nat, 16);
    lemma_pow256_values();
    lemma_le_round_trip(amount as nat, 8);
    lemma_le_round_trip(other_amount_threshold as nat, 8);
    lemma_le_round_trip(sqrt_price_limit_x64 as nat, 16);
    assert(data.subrange(0, 8) =~= SWAP_V2_TAG@);
    assert(data.subrange(8, 16) =~= le_bytes(amount as nat, 8));
    assert(data.subrange(16, 24) =~= le_bytes(other_amount_threshold as nat, 8));
    assert(data.subrange(24, 40) =~= le_bytes(sqrt_price_limit_x64 as nat, 16));
}

/// The bytes of a swap determine its arguments: two calls that are written
/// down alike ask the same of the pool.
pub proof fn law_swap_data_determines_arguments(
    amount: u64,
    other_amount_threshold: u64,
    sqrt_price_limit_x64: u128,
    is_base_input: bool,
    amount_2: u64,
    other_amount_threshold_2: u64,
    sqrt_price_limit_x64_2: u128,
    is_base_input_2: bool,
)
    requires
        spec_swap_data(amount, other_amount_threshold, sqrt_price_limit_x64, is_base_input)
            == spec_swap_data(
            amount_2,
            other_amount_threshold_2,
            sqrt_price_limit_x64_2,
            is_base_input_2,
        ),
    ensures
        amount == amount_2,
        other_amount_threshold == other_amount_threshold_2,
        sqrt_price_limit_x64 == sqrt_price_limit_x64_2,
        is_base_input == is_base_input_2,
{
    lemma_swap_data_parts(amount, other_amount_threshold, sqrt_price_limit_x64, is_base_input);
    lemma_swap_data_parts(
        amount_2,
        other_amount_threshold_2,
        sqrt_price_limit_x64_2,
        is_base_input_2,
    );
}

/// The list of accounts of a swap determines the accounts and their
/// roles, and the auxiliary accounts in their order.
pub proof fn law_account_metas_determine_accounts(
    accounts: SwapAccounts,
    remaining: Seq<Pubkey>,
    accounts_2: SwapAccounts,
    remaining_2: Seq<Pubkey>,
)
    requires
        spec_account_metas(accounts, remaining) == spec_account_metas(accounts_2, remaining_2),
    ensures
        accounts == accounts_2,
        remaining == remaining_2,
{
    let a = spec_account_metas(accounts, remaining);
    let b = spec_account_metas(accounts_2, remaining_2);
    assert(a.len() == 13 + remaining.len());
    assert(b.len() == 13 + remaining_2.len());
    assert(a[0].pubkey == accounts.payer && b[0].pubkey == accounts_2.payer);
    assert(a[1].pubkey == accounts.amm_config && b[1].pubkey == accounts_2.amm_config);
    assert(a[2].pubkey == accounts.pool_state && b[2].pubkey == accounts_2.pool_state);
    assert(a[3].pubkey == accounts.input_token_account && b[3].pubkey
        == accounts_2.input_token_account);
    assert(a[4].pubkey == accounts.output_token_account && b[4].pubkey
        == accounts_2.output_token_account);
    assert(a[5].pubkey == accounts.input_vault && b[5].pubkey == accounts_2.input_vault);
    assert(a[6].pubkey == accounts.output_vault && b[6].pubkey == accounts_2.output_vault);
    assert(a[7].pubkey == accounts.observation_state && b[7].pubkey
        == accounts_2.observation_state);
    assert(a[8].pubkey == accounts.token_program && b[8].pubkey == accounts_2.token_program);
    assert(a[9].pubkey == accounts.token_program_2022 && b[9].pubkey
        == accounts_2.token_program_2022);
    assert(a[10].pubkey == accounts.memo_program && b[10].pubkey == accounts_2.memo_program);
    assert(a[11].pubkey == accounts.input_vault_mint && b[11].pubkey
        == accounts_2.input_vault_mint);
    assert(a[12].pubkey == accounts.output_vault_mint && b[12].pubkey
        == accounts_2.output_vault_mint);
    assert forall|i: int| 0 <= i < remaining.len() implies remaining[i] == remaining_2[i] by {
        assert(a[13 + i].pubkey == remaining[i]);
        assert(b[13 + i].pubkey == remaining_2[i]);
    }
    assert(remaining =~= remaining_2);
}

/// Writes the arguments of a swap as bytes.
pub fn encode_swap_data(
    amount: u64,
    other_amount_threshold: u64,
    sqrt_price_limit_x64: u128,
    is_base_input: bool,
) -> (data: Vec<u8>)
    ensures
        data@ == spec_swap_data(amount, other_amount_threshold, sqrt_price_limit_x64, is_base_input),
        data@.len() == SWAP_V2_DATA_LEN,
{
    let mut data: Vec<u8> = Vec::with_capacity(SWAP_V2_DATA_LEN);
    let mut i: usize = 0;
    while i < 8
        invariant
            i <= 8,
            data@.len() == i,
            forall|j: int| 0 <= j < i ==> data@[j] == SWAP_V2_TAG@[j],
        decreases 8 - i,
    {
        data.push(SWAP_V2_TAG[i]);
        i += 1;
    }
    assert(data@ =~= SWAP_V2_TAG@);
    push_le(&mut data, amount as u128, 8);
    push_le(&mut data, other_amount_threshold as u128, 8);
    push_le(&mut data, sqrt_price_limit_x64, 16);
    data.push(if is_base_input {
        1u8
    } else {
        0u8
    });
    proof {
        lemma_swap_data_len(amount, other_amount_threshold, sqrt_price_limit_x64, is_base_input);
        assert(data@ =~= spec_swap_data(
            amount,
            other_amount_threshold,
            sqrt_price_limit_x64,
            is_base_input,
        ));
    }
    data
}

/// The accounts that every swap names, in the order of the call: the payer
/// signs and is written to; the configuration, the programs and the mints
/// are only read; all others are written to.
pub open spec fn spec_fixed_metas(accounts: SwapAccounts) -> Seq<AccountMeta> {
    seq![
        AccountMeta::spec_new(accounts.payer, true),
        AccountMeta::spec_new_readonly(accounts.amm_config, false),
        AccountMeta::spec_new(accounts.pool_state, false),
        AccountMeta::spec_new(accounts.input_token_account, false),
        AccountMeta::spec_new(accounts.output_token_account, false),
        AccountMeta::spec_new(accounts.input_vault, false),
        AccountMeta::spec_new(accounts.output_vault, false),
        AccountMeta::spec_new(accounts.observation_state, false),
        AccountMeta::spec_new_readonly(accounts.token_program, false),
        AccountMeta::spec_new_readonly(accounts.token_program_2022, false),
        AccountMeta::spec_new_readonly(accounts.memo_program, false),
        AccountMeta::spec_new_readonly(accounts.input_vault_mint, false),
        AccountMeta::spec_new_readonly(accounts.output_vault_mint, false),
    ]
}

/// The whole list of accounts of a swap: the fixed ones, then the pool's
/// auxiliary accounts in the caller's order, each written to.
pub open spec fn spec_account_metas(accounts: SwapAccounts, remaining: Seq<Pubkey>) -> Seq<
    AccountMeta,
> {
    spec_fixed_metas(accounts) + Seq::new(
        remaining.len(),
        |i: int| AccountMeta::spec_new(remaining[i], false),
    )
}

/// Lists the accounts of a swap in the order of the call.
pub fn account_metas(accounts: &SwapAccounts, remaining: &Vec<Pubkey>) -> (metas: Vec<AccountMeta>)
    ensures
        metas@ == spec_account_metas(*accounts, remaining@),
        metas@.len() == SWAP_V2_FIXED_ACCOUNTS + remaining@.len(),
{
    let mut metas: Vec<AccountMeta> = Vec::new();
    metas.push(AccountMeta::new(accounts.payer, true));
    metas.push(AccountMeta::new_readonly(accounts.amm_config, false));
    metas.push(AccountMeta::new(accounts.pool_state, false));
    metas.push(AccountMeta::new(accounts.input_token_account, false));
    metas.push(AccountMeta::new(accounts.output_token_account, false));
    metas.push(AccountMeta::new(accounts.input_vault, false));
    metas.push(AccountMeta::new(accounts.output_vault, false));
    metas.push(AccountMeta::new(accounts.observation_state, false));
    metas.push(AccountMeta::new_readonly(accounts.token_program, false));
    metas.push(AccountMeta::new_readonly(accounts.token_program_2022, false));
    metas.push(AccountMeta::new_readonly(accounts.memo_program, false));
    metas.push(AccountMeta::new_readonly(accounts.input_vault_mint, false));
    metas.push(AccountMeta::new_readonly(accounts.output_vault_mint, false));
    assert(metas@ =~= spec_fixed_metas(*accounts));
    let mut i: usize = 0;
    while i < remaining.len()
        invariant
            i <= remaining@.len(),
            metas@.len() == 13 + i,
            metas@.subrange(0, 13) == spec_fixed_metas(*accounts),
            forall|j: int| 0 <= j < i ==> metas@[13 + j] == AccountMeta::spec_new(remaining@[j], false),
        decreases remaining@.len() - i,
    {
        let ghost before = metas@;
        metas.push(AccountMeta::new(remaining[i], false));
        assert(metas@.subrange(0, 13) =~= before.subrange(0, 13));
        i += 1;
    }
    assert(metas@ =~= spec_account_metas(*accounts, remaining@));
    metas
}

impl SwapCall {
    /// The call written down for the runtime.
    pub fn instruction(&self) -> (written: Instruction)
        ensures
            written.program_id == self.program,
            written.accounts@ == spec_account_metas(self.accounts, self.remaining_accounts@),
            written.data@ == spec_swap_data(
                self.amount,
                self.other_amount_threshold,
                self.sqrt_price_limit_x64,
                self.is_base_input,
            ),
    {
        Instruction {
            program_id: self.program,
            accounts: account_metas(&self.accounts, &self.remaining_accounts),
            data: encode_swap_data(
                self.amount,
                self.other_amount_threshold,
                self.sqrt_price_limit_x64,
                self.is_base_input,
            ),
        }
    }
}

} // verus!
