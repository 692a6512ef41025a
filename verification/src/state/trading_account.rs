//! The custody account: a record bound to one owner, kept at an address that
//! is derived from the owner's own, so that the account can sign for itself.

use crate::pubkey::{
    bytes_to_vec, create_program_address, found_program_address, program_address, seeds_view,
    try_find_program_address, Pubkey,
};
use vstd::prelude::*;

verus! {

/// The tag that opens the seeds of every custody account.
pub const SEED_TAG: [u8; 15] = [116, 114, 97, 100, 105, 110, 103, 95, 97, 99, 99, 111, 117, 110, 116];

/// The tag of eight bytes that opens every stored record.
pub const DISCRIMINATOR: [u8; 8] = [104, 138, 0, 69, 222, 142, 24, 121];

/// The record of a custody account.
#[derive(Clone, Copy, Debug, PartialEq, Eq)]
pub struct TradingAccount {
    /// The wallet that owns the account.
    pub owner: Pubkey,
    /// The bump seed that fixes the account's address.
    pub bump: u8,
}

/// The seeds from which the address of `owner`'s custody account is sought.
pub open spec fn custody_seeds(owner: Pubkey) -> Seq<Seq<u8>> {
    seq![SEED_TAG@, owner@]
}

/// The seeds with which the custody account of `owner` signs.
pub open spec fn custody_signer_seeds(owner: Pubkey, bump: u8) -> Seq<Seq<u8>> {
    custody_seeds(owner).push(seq![bump])
}

/// The address of the custody account with the given record under
/// `program`, if the record's bump seed gives one.
pub open spec fn custody_address(record: TradingAccount, program: Pubkey) -> Option<Seq<u8>> {
    program_address(custody_signer_seeds(record.owner, record.bump), program@)
}

/// The stored form of a record: the tag, the owner's address, the bump seed.
pub open spec fn record_bytes(record: TradingAccount) -> Seq<u8> {
    DISCRIMINATOR@ + record.owner@ + seq![record.bump]
}

/// Whether `data` begins with the stored form of some record.
pub open spec fn holds_record(data: Seq<u8>) -> bool {
    data.len() >= TradingAccount::LEN && data.subrange(0, 8) == DISCRIMINATOR@
}

/// Two records with the same stored form are the same record.
pub proof fn law_record_bytes_injective(a: TradingAccount, b: TradingAccount)
    requires
        record_bytes(a) == record_bytes(b),
    ensures
        a == b,
{
    assert forall|i: int| 0 <= i < 32 implies a.owner.bytes[i] == b.owner.bytes[i] by {
        assert(record_bytes(a)[8 + i] == a.owner@[i]);
        assert(record_bytes(b)[8 + i] == b.owner@[i]);
    }
    assert(a.owner.bytes =~= b.owner.bytes);
    assert(record_bytes(a)[40] == a.bump);
    assert(record_bytes(b)[40] == b.bump);
}

/// The stored form of every record has the fixed length and is recognized.
pub proof fn law_record_bytes_hold_a_record(record: TradingAccount)
    ensures
        record_bytes(record).len() == TradingAccount::LEN,
        holds_record(record_bytes(record)),
{
    assert(record_bytes(record).subrange(0, 8) =~= DISCRIMINATOR@);
}

impl TradingAccount {
    /// The size of the stored record: a tag of 8 bytes, the owner, the bump seed.
    pub const LEN: usize = 8 + 32 + 1;

    /// Writes the record in its stored form.
    pub fn try_serialize(&self) -> (data: Vec<u8>)
        ensures
            data@ == record_bytes(*self),
            data@.len() == Self::LEN,
    {
        let mut data: Vec<u8> = Vec::with_capacity(Self::LEN);
        let mut i: usize = 0;
        while i < 8
            invariant
                i <= 8,
                data@.len() == i,
                forall|j: int| 0 <= j < i ==> data@[j] == DISCRIMINATOR@[j],
            decreases 8 - i,
        {
            data.push(DISCRIMINATOR[i]);
            i += 1;
        }
        let mut k: usize = 0;
        while k < 32
            invariant
                k <= 32,
                data@.len() == 8 + k,
                forall|j: int| 0 <= j < 8 ==> data@[j] == DISCRIMINATOR@[j],
                forall|j: int| 0 <= j < k ==> data@[8 + j] == self.owner@[j],
            decreases 32 - k,
        {
            data.push(self.owner.bytes[k]);
            k += 1;
        }
        data.push(self.bump);
        assert(data@ =~= record_bytes(*self));
        data
    }

    /// Reads a record from the beginning of `data`: the tag must be the
    /// one of the stored form, and owner and bump seed must follow it.
    /// What lies behind the record is not read.
    pub fn try_deserialize(data: &Vec<u8>) -> (record: Option<TradingAccount>)
        ensures
            record is Some <==> holds_record(data@),
            record matches Some(r) ==> data@.subrange(0, Self::LEN as int) == record_bytes(r),
    {
        if data.len() < Self::LEN {
            return None;
        }
        let mut i: usize = 0;
        while i < 8
            invariant
                i <= 8,
                data@.len() >= 41,
                forall|j: int| 0 <= j < i ==> data@[j] == DISCRIMINATOR@[j],
            decreases 8 - i,
        {
            if data[i] != DISCRIMINATOR[i] {
                assert(data@.subrange(0, 8)[i as int] != DISCRIMINATOR@[i as int]);
                return None;
            }
            i += 1;
        }
        assert(data@.subrange(0, 8) =~= DISCRIMINATOR@);
        let mut bytes: [u8; 32] = [0u8; 32];
        let mut k: usize = 0;
        while k < 32
            invariant
                k <= 32,
                data@.len() >= 41,
                forall|j: int| 0 <= j < k ==> bytes@[j] == data@[8 + j],
            decreases 32 - k,
        {
            bytes[k] = data[8 + k];
            k += 1;
        }
        let record = TradingAccount { owner: Pubkey { bytes }, bump: data[40] };
        assert(data@.subrange(0, 41) =~= record_bytes(record));
        Some(record)
    }

    /// The seeds from which the address of `owner`'s custody account is sought.
    pub fn seeds(owner: &Pubkey) -> (seeds: Vec<Vec<u8>>)
        ensures
            seeds_view(&seeds) == custody_seeds(*owner),
    {
        let mut seeds: Vec<Vec<u8>> = Vec::new();
        seeds.push(bytes_to_vec(&SEED_TAG));
        seeds.push(bytes_to_vec(&owner.bytes));
        assert(seeds_view(&seeds) =~= custody_seeds(*owner));
        seeds
    }

    /// The seeds with which the account signs for itself.
    pub fn signer_seeds(&self) -> (seeds: Vec<Vec<u8>>)
        ensures
            seeds_view(&seeds) == custody_signer_seeds(self.owner, self.bump),
    {
        let mut seeds: Vec<Vec<u8>> = Vec::new();
        seeds.push(bytes_to_vec(&SEED_TAG));
        seeds.push(bytes_to_vec(&self.owner.bytes));
        let mut last: Vec<u8> = Vec::new();
        last.push(self.bump);
        assert(last@ =~= seq![self.bump]);
        seeds.push(last);
        assert(seeds_view(&seeds) =~= custody_signer_seeds(self.owner, self.bump));
        seeds
    }

    /// The record and the address of the custody account of `owner` under
    /// `program`: the address found for the owner's seeds, with its bump seed.
    pub fn find(owner: &Pubkey, program: &Pubkey) -> (found: Option<(Pubkey, TradingAccount)>)
        ensures
            match found {
                Some((address, record)) => {
                    &&& found_program_address(custody_seeds(*owner), program@) == Some(
                        (address@, record.bump),
                    )
                    &&& record.owner == *owner
                    &&& custody_address(record, *program) == Some(address@)
                },
                None => found_program_address(custody_seeds(*owner), program@) is None,
            },
    {
        let seeds = Self::seeds(owner);
        match try_find_program_address(&seeds, program) {
            Some((address, bump)) => Some((address, TradingAccount { owner: *owner, bump })),
            None => None,
        }
    }

    /// The address at which this record must be kept under `program`.
    pub fn address(&self, program: &Pubkey) -> (address: Option<Pubkey>)
        ensures
            match address {
                Some(a) => custody_address(*self, *program) == Some(a@),
                None => custody_address(*self, *program) is None,
            },
    {
        let seeds = self.signer_seeds();
        create_program_address(&seeds, program)
    }

    /// Whether `address` is where this record must be kept under `program`.
    pub fn is_at(&self, address: &Pubkey, program: &Pubkey) -> (at: bool)
        ensures
            at == (custody_address(*self, *program) == Some(address@)),
    {
        match self.address(program) {
            Some(a) => a.same(address),
            None => false,
        }
    }
}

} // verus!
