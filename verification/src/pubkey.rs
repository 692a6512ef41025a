//! Account addresses and the deterministic derivation of program addresses.

use vstd::prelude::*;

verus! {

/// A 32-byte account address.
#[derive(Clone, Copy, Debug, PartialEq, Eq)]
pub struct Pubkey {
    pub bytes: [u8; 32],
}

impl View for Pubkey {
    type V = Seq<u8>;

    open spec fn view(&self) -> Seq<u8> {
        self.bytes@
    }
}

impl Pubkey {
    /// The address made of the given bytes.
    pub fn new_from_array(bytes: [u8; 32]) -> (key: Pubkey)
        ensures
            key.bytes == bytes,
            key@ == bytes@,
    {
        Pubkey { bytes }
    }

    /// The bytes of the address.
    pub fn to_bytes(&self) -> (bytes: [u8; 32])
        ensures
            bytes == self.bytes,
            bytes@ == self@,
    {
        self.bytes
    }

    /// Whether the address is the one made of the given bytes.
    pub fn has_bytes(&self, bytes: &[u8; 32]) -> (same: bool)
        ensures
            same == (self@ == bytes@),
            same == (self.bytes == *bytes),
    {
        self.same(&Pubkey { bytes: *bytes })
    }

    /// Whether two addresses hold the same bytes.
    pub fn same(&self, other: &Pubkey) -> (same: bool)
        ensures
            same == (self@ == other@),
            same == (*self == *other),
    {
        let mut i: usize = 0;
        while i < 32
            invariant
                i <= 32,
                forall|j: int| 0 <= j < i ==> self.bytes[j] == other.bytes[j],
            decreases 32 - i,
        {
            if self.bytes[i] != other.bytes[i] {
                assert(self@[i as int] != other@[i as int]);
                return false;
            }
            i += 1;
        }
        assert(self.bytes =~= other.bytes);
        assert(self@ =~= other@);
        true
    }
}

/// The system program, which moves the native currency.
pub const SYSTEM_PROGRAM_ID: [u8; 32] = [
    0, 0, 0, 0, 0, 0, 0, 0, 0, 0, 0, 0, 0, 0, 0, 0, 0, 0, 0, 0, 0, 0, 0, 0, 0, 0, 0, 0, 0, 0, 0, 0,
];

/// The token program.
pub const TOKEN_PROGRAM_ID: [u8; 32] = [
    6, 221, 246, 225, 215, 101, 161, 147, 217, 203, 225, 70, 206, 235, 121, 172, 28, 180, 133, 237,
    95, 91, 55, 145, 58, 140, 245, 133, 126, 255, 0, 169,
];

/// The token program of the 2022 standard.
pub const TOKEN_2022_PROGRAM_ID: [u8; 32] = [
    6, 221, 246, 225, 238, 117, 143, 222, 24, 66, 93, 188, 228, 108, 205, 218, 182, 26, 252, 77,
    131, 185, 13, 39, 254, 189, 249, 40, 216, 161, 139, 252,
];

/// The program that keeps the associated token accounts.
pub const ASSOCIATED_TOKEN_PROGRAM_ID: [u8; 32] = [
    140, 151, 37, 143, 78, 36, 137, 241, 187, 61, 16, 41, 20, 142, 13, 131, 11, 90, 19, 153, 218,
    255, 16, 132, 4, 142, 123, 216, 219, 233, 248, 89,
];

/// The memo program.
pub const MEMO_PROGRAM_ID: [u8; 32] = [
    5, 74, 83, 90, 153, 41, 33, 6, 77, 36, 232, 113, 96, 218, 56, 124, 124, 53, 181, 221, 188, 146,
    187, 129, 228, 31, 168, 64, 65, 5, 68, 141,
];

/// The mint of the wrapped native currency.
pub const WSOL_MINT: [u8; 32] = [
    6, 155, 136, 87, 254, 171, 129, 132, 251, 104, 127, 99, 70, 24, 192, 53, 218, 196, 57, 220, 26,
    235, 59, 85, 152, 160, 240, 0, 0, 0, 0, 1,
];

/// Copies an array of bytes into a vector.
pub fn bytes_to_vec<const N: usize>(bytes: &[u8; N]) -> (v: Vec<u8>)
    ensures
        v@ == bytes@,
{
    let mut v: Vec<u8> = Vec::new();
    let mut i: usize = 0;
    while i < N
        invariant
            i <= N,
            v@.len() == i,
            forall|j: int| 0 <= j < i ==> v@[j] == bytes@[j],
        decreases N - i,
    {
        v.push(bytes[i]);
        i += 1;
    }
    assert(v@ =~= bytes@);
    v
}

/// The address that the outside derivation gives for `seeds` under `program`,
/// if the seeds are admissible and the hash is a valid program address.
pub uninterp spec fn program_address(seeds: Seq<Seq<u8>>, program: Seq<u8>) -> Option<Seq<u8>>;

/// The address and the bump seed that the outside search gives for `seeds`
/// under `program`, if any bump seed gives a valid program address.
pub uninterp spec fn found_program_address(seeds: Seq<Seq<u8>>, program: Seq<u8>) -> Option<
    (Seq<u8>, u8),
>;

/// The seeds, each as a sequence of bytes.
pub open spec fn seeds_view(seeds: &Vec<Vec<u8>>) -> Seq<Seq<u8>> {
    Seq::new(seeds@.len(), |i: int| seeds@[i]@)
}

/// `Pubkey::create_program_address` of the Solana SDK: hashes the seeds, the
/// program's address and a marker, and gives the hash as an address unless
/// it lies on the curve or a seed is over its limits. Nothing is claimed
/// beyond that the outcome is a function of the seeds and the program.
#[verifier::external_body]
pub(crate) fn create_program_address(seeds: &Vec<Vec<u8>>, program: &Pubkey) -> (address: Option<
    Pubkey,
>)
    ensures
        match address {
            Some(a) => program_address(seeds_view(seeds), program@) == Some(a@),
            None => program_address(seeds_view(seeds), program@) is None,
        },
{
    let refs: Vec<&[u8]> = seeds.iter().map(|s| s.as_slice()).collect();
    let id = anchor_lang::prelude::Pubkey::new_from_array(program.bytes);
    match anchor_lang::prelude::Pubkey::create_program_address(&refs, &id) {
        Ok(a) => Some(Pubkey { bytes: a.to_bytes() }),
        Err(_) => None,
    }
}

/// `Pubkey::try_find_program_address` of the Solana SDK: tries the bump seeds
/// from 255 downwards, each appended to `seeds` as one more seed of one byte,
/// and gives the first address that `create_program_address` accepts, with
/// its bump seed. The contract names the outcome and states that the address
/// is the one derived from the seeds with that bump seed appended.
#[verifier::external_body]
pub(crate) fn try_find_program_address(seeds: &Vec<Vec<u8>>, program: &Pubkey) -> (found: Option<
    (Pubkey, u8),
>)
    ensures
        match found {
            Some((a, bump)) => {
                &&& found_program_address(seeds_view(seeds), program@) == Some((a@, bump))
                &&& program_address(seeds_view(seeds).push(seq![bump]), program@) == Some(a@)
            },
            None => found_program_address(seeds_view(seeds), program@) is None,
        },
{
    let refs: Vec<&[u8]> = seeds.iter().map(|s| s.as_slice()).collect();
    let id = anchor_lang::prelude::Pubkey::new_from_array(program.bytes);
    match anchor_lang::prelude::Pubkey::try_find_program_address(&refs, &id) {
        Some((a, bump)) => Some((Pubkey { bytes: a.to_bytes() }, bump)),
        None => None,
    }
}

/// The seeds from which the address of a wallet's associated holding of a
/// token is sought: the wallet, the token program, the token.
pub open spec fn associated_token_seeds(wallet: Pubkey, mint: Pubkey) -> Seq<Seq<u8>> {
    seq![wallet@, TOKEN_PROGRAM_ID@, mint@]
}

/// `get_associated_token_address` of the token library: the address found
/// for the wallet, the token program and the token under the program that
/// keeps the associated accounts. The search stops the program where it
/// finds no address; the precondition keeps away from such inputs.
#[verifier::external_body]
pub(crate) fn get_associated_token_address(wallet: &Pubkey, mint: &Pubkey) -> (address: Pubkey)
    requires
        found_program_address(
            associated_token_seeds(*wallet, *mint),
            ASSOCIATED_TOKEN_PROGRAM_ID@,
        ) is Some,
    ensures
        address@ == found_program_address(
            associated_token_seeds(*wallet, *mint),
            ASSOCIATED_TOKEN_PROGRAM_ID@,
        ).unwrap().0,
{
    let w = anchor_lang::prelude::Pubkey::new_from_array(wallet.bytes);
    let m = anchor_lang::prelude::Pubkey::new_from_array(mint.bytes);
    let a = anchor_spl::associated_token::get_associated_token_address(&w, &m);
    Pubkey { bytes: a.to_bytes() }
}

/// The address of the wallet's associated holding of the token, if the
/// search finds one.
pub fn associated_token_address(wallet: &Pubkey, mint: &Pubkey) -> (address: Option<Pubkey>)
    ensures
        match address {
            Some(a) => found_program_address(
                associated_token_seeds(*wallet, *mint),
                ASSOCIATED_TOKEN_PROGRAM_ID@,
            ) matches Some(found) && a@ == found.0,
            None => found_program_address(
                associated_token_seeds(*wallet, *mint),
                ASSOCIATED_TOKEN_PROGRAM_ID@,
            ) is None,
        },
{
    let mut seeds: Vec<Vec<u8>> = Vec::new();
    seeds.push(bytes_to_vec(&wallet.bytes));
    seeds.push(bytes_to_vec(&TOKEN_PROGRAM_ID));
    seeds.push(bytes_to_vec(&mint.bytes));
    assert(seeds_view(&seeds) =~= associated_token_seeds(*wallet, *mint));
    let program = Pubkey { bytes: ASSOCIATED_TOKEN_PROGRAM_ID };
    match try_find_program_address(&seeds, &program) {
        Some(_) => Some(get_associated_token_address(wallet, mint)),
        None => None,
    }
}

/// Copies a list of addresses.
pub fn copy_keys(keys: &Vec<Pubkey>) -> (copy: Vec<Pubkey>)
    ensures
        copy@ == keys@,
{
    let mut copy: Vec<Pubkey> = Vec::new();
    let mut i: usize = 0;
    while i < keys.len()
        invariant
            i <= keys@.len(),
            copy@.len() == i,
            forall|j: int| 0 <= j < i ==> copy@[j] == keys@[j],
        decreases keys@.len() - i,
    {
        copy.push(keys[i]);
        i += 1;
    }
    assert(copy@ =~= keys@);
    copy
}

} // verus!
