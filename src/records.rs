use vstd::bytes::{
    spec_u32_from_le_bytes, spec_u64_from_le_bytes, u32_from_le_bytes, u64_from_le_bytes,
};
use vstd::prelude::*;

use crate::bytes::{extend_bytes, read_array};

verus! {

/// A record of fixed byte width, stored without padding inside a list account.
pub trait ListRecord: Sized + Copy {
    /// The record's width in bytes.
    spec fn spec_size() -> nat;

    /// The record's bytes, each field in its stored little-endian form.
    spec fn spec_encoded(&self) -> Seq<u8>;

    proof fn lemma_encoded_len(&self)
        ensures
            self.spec_encoded().len() == Self::spec_size(),
            Self::spec_size() > 0,
    ;

    /// Two records with the same bytes are the same record.
    proof fn lemma_encoding_injective(&self, other: &Self)
        ensures
            self.spec_encoded() == other.spec_encoded() ==> *self == *other,
    ;

    fn size() -> (r: usize)
        ensures
            r == Self::spec_size(),
            r > 0,
    ;

    /// Reads the record stored at `start` in `data`.
    fn decode_at(data: &[u8], start: usize) -> (r: Self)
        requires
            start + Self::spec_size() <= data@.len(),
        ensures
            r.spec_encoded() == data@.subrange(start as int, start + Self::spec_size()),
    ;

    /// Appends the record's bytes to `out`.
    fn encode_into(&self, out: &mut Vec<u8>)
        ensures
            final(out)@ == old(out)@ + self.spec_encoded(),
    ;
}

/// One entry of the stake list.
#[derive(Debug, Clone, Copy, PartialEq, Eq, Default)]
pub struct StakeRecord {
    pub stake_account: [u8; 32],
    pub last_update_delegated_lamports: [u8; 8],
    pub last_update_epoch: [u8; 8],
    pub is_emergency_unstaking: u8,
    pub additional_record_space: [u8; 7],
}

impl StakeRecord {
    pub open spec fn spec_last_update_delegated_lamports(&self) -> u64 {
        spec_u64_from_le_bytes(self.last_update_delegated_lamports@)
    }

    pub open spec fn spec_is_emergency_unstaking(&self) -> bool {
        self.is_emergency_unstaking == 1
    }

    pub fn stake_account(&self) -> (r: &[u8; 32])
        ensures
            *r == self.stake_account,
    {
        &self.stake_account
    }

    pub fn last_update_delegated_lamports(&self) -> (r: u64)
        ensures
            r == self.spec_last_update_delegated_lamports(),
    {
        u64_from_le_bytes(self.last_update_delegated_lamports.as_slice())
    }

    pub fn last_update_epoch(&self) -> (r: u64)
        ensures
            r == spec_u64_from_le_bytes(self.last_update_epoch@),
    {
        u64_from_le_bytes(self.last_update_epoch.as_slice())
    }

    pub fn is_emergency_unstaking(&self) -> (r: bool)
        ensures
            r == self.spec_is_emergency_unstaking(),
    {
        self.is_emergency_unstaking == 1
    }
}

impl ListRecord for StakeRecord {
    open spec fn spec_size() -> nat {
        56
    }

    open spec fn spec_encoded(&self) -> Seq<u8> {
        self.stake_account@ + self.last_update_delegated_lamports@ + self.last_update_epoch@
            + seq![self.is_emergency_unstaking] + self.additional_record_space@
    }

    proof fn lemma_encoded_len(&self) {
    }

    proof fn lemma_encoding_injective(&self, other: &Self) {
        let a = self.spec_encoded();
        if a == other.spec_encoded() {
            assert(self.stake_account@ =~= a.subrange(0, 32));
            assert(other.stake_account@ =~= a.subrange(0, 32));
            assert(self.last_update_delegated_lamports@ =~= a.subrange(32, 40));
            assert(other.last_update_delegated_lamports@ =~= a.subrange(32, 40));
            assert(self.last_update_epoch@ =~= a.subrange(40, 48));
            assert(other.last_update_epoch@ =~= a.subrange(40, 48));
            assert(self.is_emergency_unstaking == a[48]);
            assert(other.is_emergency_unstaking == a[48]);
            assert(self.additional_record_space@ =~= a.subrange(49, 56));
            assert(other.additional_record_space@ =~= a.subrange(49, 56));
            assert(self.stake_account =~= other.stake_account);
            assert(self.last_update_delegated_lamports =~= other.last_update_delegated_lamports);
            assert(self.last_update_epoch =~= other.last_update_epoch);
            assert(self.additional_record_space =~= other.additional_record_space);
        }
    }

    fn size() -> (r: usize) {
        56
    }

    fn decode_at(data: &[u8], start: usize) -> (r: Self) {
        assert(start + 56 <= data.len());
        let r = StakeRecord {
            stake_account: read_array(data, start),
            last_update_delegated_lamports: read_array(data, start + 32),
            last_update_epoch: read_array(data, start + 40),
            is_emergency_unstaking: data[start + 48],
            additional_record_space: read_array(data, start + 49),
        };
        assert(r.spec_encoded() =~= data@.subrange(start as int, start + 56));
        r
    }

    fn encode_into(&self, out: &mut Vec<u8>) {
        extend_bytes(out, self.stake_account.as_slice());
        extend_bytes(out, self.last_update_delegated_lamports.as_slice());
        extend_bytes(out, self.last_update_epoch.as_slice());
        out.push(self.is_emergency_unstaking);
        extend_bytes(out, self.additional_record_space.as_slice());
        assert(final(out)@ =~= old(out)@ + self.spec_encoded());
    }
}

/// One entry of the validator list.
#[derive(Debug, Clone, Copy, PartialEq, Eq, Default)]
pub struct ValidatorRecord {
    pub validator_account: [u8; 32],
    pub active_balance: [u8; 8],
    pub score: [u8; 4],
    pub last_stake_delta_epoch: [u8; 8],
    pub duplication_flag_bump_seed: u8,
    pub additional_record_space: [u8; 8],
}

impl ValidatorRecord {
    pub fn validator_account(&self) -> (r: &[u8; 32])
        ensures
            *r == self.validator_account,
    {
        &self.validator_account
    }

    pub fn active_balance(&self) -> (r: u64)
        ensures
            r == spec_u64_from_le_bytes(self.active_balance@),
    {
        u64_from_le_bytes(self.active_balance.as_slice())
    }

    pub fn score(&self) -> (r: u32)
        ensures
            r == spec_u32_from_le_bytes(self.score@),
    {
        u32_from_le_bytes(self.score.as_slice())
    }

    pub fn last_stake_delta_epoch(&self) -> (r: u64)
        ensures
            r == spec_u64_from_le_bytes(self.last_stake_delta_epoch@),
    {
        u64_from_le_bytes(self.last_stake_delta_epoch.as_slice())
    }

    pub fn duplication_flag_bump_seed(&self) -> (r: u8)
        ensures
            r == self.duplication_flag_bump_seed,
    {
        self.duplication_flag_bump_seed
    }
}

impl ListRecord for ValidatorRecord {
    open spec fn spec_size() -> nat {
        61
    }

    open spec fn spec_encoded(&self) -> Seq<u8> {
        self.validator_account@ + self.active_balance@ + self.score@ + self.last_stake_delta_epoch@
            + seq![self.duplication_flag_bump_seed] + self.additional_record_space@
    }

    proof fn lemma_encoded_len(&self) {
    }

    proof fn lemma_encoding_injective(&self, other: &Self) {
        let a = self.spec_encoded();
        if a == other.spec_encoded() {
            assert(self.validator_account@ =~= a.subrange(0, 32));
            assert(other.validator_account@ =~= a.subrange(0, 32));
            assert(self.active_balance@ =~= a.subrange(32, 40));
            assert(other.active_balance@ =~= a.subrange(32, 40));
            assert(self.score@ =~= a.subrange(40, 44));
            assert(other.score@ =~= a.subrange(40, 44));
            assert(self.last_stake_delta_epoch@ =~= a.subrange(44, 52));
            assert(other.last_stake_delta_epoch@ =~= a.subrange(44, 52));
            assert(self.duplication_flag_bump_seed == a[52]);
            assert(other.duplication_flag_bump_seed == a[52]);
            assert(self.additional_record_space@ =~= a.subrange(53, 61));
            assert(other.additional_record_space@ =~= a.subrange(53, 61));
            assert(self.validator_account =~= other.validator_account);
            assert(self.active_balance =~= other.active_balance);
            assert(self.score =~= other.score);
            assert(self.last_stake_delta_epoch =~= other.last_stake_delta_epoch);
            assert(self.additional_record_space =~= other.additional_record_space);
        }
    }

    fn size() -> (r: usize) {
        61
    }

    fn decode_at(data: &[u8], start: usize) -> (r: Self) {
        assert(start + 61 <= data.len());
        let r = ValidatorRecord {
            validator_account: read_array(data, start),
            active_balance: read_array(data, start + 32),
            score: read_array(data, start + 40),
            last_stake_delta_epoch: read_array(data, start + 44),
            duplication_flag_bump_seed: data[start + 52],
            additional_record_space: read_array(data, start + 53),
        };
        assert(r.spec_encoded() =~= data@.subrange(start as int, start + 61));
        r
    }

    fn encode_into(&self, out: &mut Vec<u8>) {
        extend_bytes(out, self.validator_account.as_slice());
        extend_bytes(out, self.active_balance.as_slice());
        extend_bytes(out, self.score.as_slice());
        extend_bytes(out, self.last_stake_delta_epoch.as_slice());
        out.push(self.duplication_flag_bump_seed);
        extend_bytes(out, self.additional_record_space.as_slice());
        assert(final(out)@ =~= old(out)@ + self.spec_encoded());
    }
}

} // verus!
