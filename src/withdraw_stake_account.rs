use vstd::prelude::*;

use vstd::bytes::{spec_u32_to_le_bytes, spec_u64_to_le_bytes, u32_to_le_bytes, u64_to_le_bytes};

use crate::bytes::{extend_bytes, read_array};
use crate::consts::{STAKE_PROGRAM, SYSTEM_PROGRAM, SYSVAR_CLOCK, TOKEN_PROGRAM};
use crate::keys::{MainnetAddresses, STAKE_LIST_PUBKEY, STATE_PUBKEY, VALIDATOR_LIST_PUBKEY};
use crate::state::State;

verus! {

/// Tag that starts the instruction's data.
pub const INSTRUCTION_DISCRIM_WITHDRAW_STAKE_ACCOUNT: [u8; 8] = [211, 85, 184, 65, 183, 177, 233, 217];

/// Number of accounts the instruction takes.
pub const WITHDRAW_STAKE_ACCOUNT_IX_ACCS_LEN: usize = 16;

pub const WITHDRAW_STAKE_ACCOUNT_IX_ACCS_IDX_STATE: usize = 0;

pub const WITHDRAW_STAKE_ACCOUNT_IX_ACCS_IDX_MSOL_MINT: usize = 1;

pub const WITHDRAW_STAKE_ACCOUNT_IX_ACCS_IDX_BURN_MSOL_FROM: usize = 2;

pub const WITHDRAW_STAKE_ACCOUNT_IX_ACCS_IDX_BURN_MSOL_AUTHORITY: usize = 3;

pub const WITHDRAW_STAKE_ACCOUNT_IX_ACCS_IDX_TREASURY_MSOL_ACCOUNT: usize = 4;

pub const WITHDRAW_STAKE_ACCOUNT_IX_ACCS_IDX_VALIDATOR_LIST: usize = 5;

pub const WITHDRAW_STAKE_ACCOUNT_IX_ACCS_IDX_STAKE_LIST: usize = 6;

pub const WITHDRAW_STAKE_ACCOUNT_IX_ACCS_IDX_STAKE_WITHDRAW_AUTHORITY: usize = 7;

pub const WITHDRAW_STAKE_ACCOUNT_IX_ACCS_IDX_STAKE_DEPOSIT_AUTHORITY: usize = 8;

pub const WITHDRAW_STAKE_ACCOUNT_IX_ACCS_IDX_STAKE_ACCOUNT: usize = 9;

pub const WITHDRAW_STAKE_ACCOUNT_IX_ACCS_IDX_SPLIT_STAKE_ACCOUNT: usize = 10;

pub const WITHDRAW_STAKE_ACCOUNT_IX_ACCS_IDX_SPLIT_STAKE_RENT_PAYER: usize = 11;

pub const WITHDRAW_STAKE_ACCOUNT_IX_ACCS_IDX_CLOCK: usize = 12;

pub const WITHDRAW_STAKE_ACCOUNT_IX_ACCS_IDX_SYSTEM_PROGRAM: usize = 13;

pub const WITHDRAW_STAKE_ACCOUNT_IX_ACCS_IDX_TOKEN_PROGRAM: usize = 14;

pub const WITHDRAW_STAKE_ACCOUNT_IX_ACCS_IDX_STAKE_PROGRAM: usize = 15;

/// The instruction's accounts, one slot each, in the order the program reads them.
#[derive(Debug, Default, Clone, Copy, PartialEq, Eq, Hash)]
pub struct WithdrawStakeAccountIxAccs<T>(pub [T; 16]);

pub type WithdrawStakeAccountIxKeysOwned = WithdrawStakeAccountIxAccs<[u8; 32]>;

pub type WithdrawStakeAccountIxKeys<'a> = WithdrawStakeAccountIxAccs<&'a [u8; 32]>;

pub type WithdrawStakeAccountIxAccsFlag = WithdrawStakeAccountIxAccs<bool>;

/// Which slots the instruction writes.
pub const WITHDRAW_STAKE_ACCOUNT_IX_PREFIX_IS_WRITER: [bool; 16] = [
    true, // state
    true, // msol_mint
    true, // burn_msol_from
    true, // burn_msol_authority
    true, // treasury_msol_account
    true, // validator_list
    true, // stake_list
    false, // stake_withdraw_authority
    false, // stake_deposit_authority
    true, // stake_account
    true, // split_stake_account
    true, // split_stake_rent_payer
    false, // clock
    false, // system_program
    false, // token_program
    false, // stake_program
];

/// Which slots must sign.
pub const WITHDRAW_STAKE_ACCOUNT_IX_PREFIX_IS_SIGNER: [bool; 16] = [
    false, // state
    false, // msol_mint
    false, // burn_msol_from
    true, // burn_msol_authority
    false, // treasury_msol_account
    false, // validator_list
    false, // stake_list
    false, // stake_withdraw_authority
    false, // stake_deposit_authority
    false, // stake_account
    true, // split_stake_account
    true, // split_stake_rent_payer
    false, // clock
    false, // system_program
    false, // token_program
    false, // stake_program
];

impl<T> WithdrawStakeAccountIxAccs<T> {
    pub fn new(arr: [T; 16]) -> (r: Self)
        ensures
            r.0 == arr,
    {
        WithdrawStakeAccountIxAccs(arr)
    }

    /// The same slots with `state` set to `v`.
    pub fn with_state(self, v: T) -> (r: Self)
        ensures
            r.0@ == self.0@.update(WITHDRAW_STAKE_ACCOUNT_IX_ACCS_IDX_STATE as int, v),
    {
        let mut s = self;
        s.0[WITHDRAW_STAKE_ACCOUNT_IX_ACCS_IDX_STATE] = v;
        s
    }

    /// The same slots with `msol_mint` set to `v`.
    pub fn with_msol_mint(self, v: T) -> (r: Self)
        ensures
            r.0@ == self.0@.update(WITHDRAW_STAKE_ACCOUNT_IX_ACCS_IDX_MSOL_MINT as int, v),
    {
        let mut s = self;
        s.0[WITHDRAW_STAKE_ACCOUNT_IX_ACCS_IDX_MSOL_MINT] = v;
        s
    }

    /// The same slots with `burn_msol_from` set to `v`.
    pub fn with_burn_msol_from(self, v: T) -> (r: Self)
        ensures
            r.0@ == self.0@.update(WITHDRAW_STAKE_ACCOUNT_IX_ACCS_IDX_BURN_MSOL_FROM as int, v),
    {
        let mut s = self;
        s.0[WITHDRAW_STAKE_ACCOUNT_IX_ACCS_IDX_BURN_MSOL_FROM] = v;
        s
    }

    /// The same slots with `burn_msol_authority` set to `v`.
    pub fn with_burn_msol_authority(self, v: T) -> (r: Self)
        ensures
            r.0@ == self.0@.update(WITHDRAW_STAKE_ACCOUNT_IX_ACCS_IDX_BURN_MSOL_AUTHORITY as int, v),
    {
        let mut s = self;
        s.0[WITHDRAW_STAKE_ACCOUNT_IX_ACCS_IDX_BURN_MSOL_AUTHORITY] = v;
        s
    }

    /// The same slots with `treasury_msol_account` set to `v`.
    pub fn with_treasury_msol_account(self, v: T) -> (r: Self)
        ensures
            r.0@ == self.0@.update(WITHDRAW_STAKE_ACCOUNT_IX_ACCS_IDX_TREASURY_MSOL_ACCOUNT as int, v),
    {
        let mut s = self;
        s.0[WITHDRAW_STAKE_ACCOUNT_IX_ACCS_IDX_TREASURY_MSOL_ACCOUNT] = v;
        s
    }

    /// The same slots with `validator_list` set to `v`.
    pub fn with_validator_list(self, v: T) -> (r: Self)
        ensures
            r.0@ == self.0@.update(WITHDRAW_STAKE_ACCOUNT_IX_ACCS_IDX_VALIDATOR_LIST as int, v),
    {
        let mut s = self;
        s.0[WITHDRAW_STAKE_ACCOUNT_IX_ACCS_IDX_VALIDATOR_LIST] = v;
        s
    }

    /// The same slots with `stake_list` set to `v`.
    pub fn with_stake_list(self, v: T) -> (r: Self)
        ensures
            r.0@ == self.0@.update(WITHDRAW_STAKE_ACCOUNT_IX_ACCS_IDX_STAKE_LIST as int, v),
    {
        let mut s = self;
        s.0[WITHDRAW_STAKE_ACCOUNT_IX_ACCS_IDX_STAKE_LIST] = v;
        s
    }

    /// The same slots with `stake_withdraw_authority` set to `v`.
    pub fn with_stake_withdraw_authority(self, v: T) -> (r: Self)
        ensures
            r.0@ == self.0@.update(WITHDRAW_STAKE_ACCOUNT_IX_ACCS_IDX_STAKE_WITHDRAW_AUTHORITY as int, v),
    {
        let mut s = self;
        s.0[WITHDRAW_STAKE_ACCOUNT_IX_ACCS_IDX_STAKE_WITHDRAW_AUTHORITY] = v;
        s
    }

    /// The same slots with `stake_deposit_authority` set to `v`.
    pub fn with_stake_deposit_authority(self, v: T) -> (r: Self)
        ensures
            r.0@ == self.0@.update(WITHDRAW_STAKE_ACCOUNT_IX_ACCS_IDX_STAKE_DEPOSIT_AUTHORITY as int, v),
    {
        let mut s = self;
        s.0[WITHDRAW_STAKE_ACCOUNT_IX_ACCS_IDX_STAKE_DEPOSIT_AUTHORITY] = v;
        s
    }

    /// The same slots with `stake_account` set to `v`.
    pub fn with_stake_account(self, v: T) -> (r: Self)
        ensures
            r.0@ == self.0@.update(WITHDRAW_STAKE_ACCOUNT_IX_ACCS_IDX_STAKE_ACCOUNT as int, v),
    {
        let mut s = self;
        s.0[WITHDRAW_STAKE_ACCOUNT_IX_ACCS_IDX_STAKE_ACCOUNT] = v;
        s
    }

    /// The same slots with `split_stake_account` set to `v`.
    pub fn with_split_stake_account(self, v: T) -> (r: Self)
        ensures
            r.0@ == self.0@.update(WITHDRAW_STAKE_ACCOUNT_IX_ACCS_IDX_SPLIT_STAKE_ACCOUNT as int, v),
    {
        let mut s = self;
        s.0[WITHDRAW_STAKE_ACCOUNT_IX_ACCS_IDX_SPLIT_STAKE_ACCOUNT] = v;
        s
    }

    /// The same slots with `split_stake_rent_payer` set to `v`.
    pub fn with_split_stake_rent_payer(self, v: T) -> (r: Self)
        ensures
            r.0@ == self.0@.update(WITHDRAW_STAKE_ACCOUNT_IX_ACCS_IDX_SPLIT_STAKE_RENT_PAYER as int, v),
    {
        let mut s = self;
        s.0[WITHDRAW_STAKE_ACCOUNT_IX_ACCS_IDX_SPLIT_STAKE_RENT_PAYER] = v;
        s
    }

    /// The same slots with `clock` set to `v`.
    pub fn with_clock(self, v: T) -> (r: Self)
        ensures
            r.0@ == self.0@.update(WITHDRAW_STAKE_ACCOUNT_IX_ACCS_IDX_CLOCK as int, v),
    {
        let mut s = self;
        s.0[WITHDRAW_STAKE_ACCOUNT_IX_ACCS_IDX_CLOCK] = v;
        s
    }

    /// The same slots with `system_program` set to `v`.
    pub fn with_system_program(self, v: T) -> (r: Self)
        ensures
            r.0@ == self.0@.update(WITHDRAW_STAKE_ACCOUNT_IX_ACCS_IDX_SYSTEM_PROGRAM as int, v),
    {
        let mut s = self;
        s.0[WITHDRAW_STAKE_ACCOUNT_IX_ACCS_IDX_SYSTEM_PROGRAM] = v;
        s
    }

    /// The same slots with `token_program` set to `v`.
    pub fn with_token_program(self, v: T) -> (r: Self)
        ensures
            r.0@ == self.0@.update(WITHDRAW_STAKE_ACCOUNT_IX_ACCS_IDX_TOKEN_PROGRAM as int, v),
    {
        let mut s = self;
        s.0[WITHDRAW_STAKE_ACCOUNT_IX_ACCS_IDX_TOKEN_PROGRAM] = v;
        s
    }

    /// The same slots with `stake_program` set to `v`.
    pub fn with_stake_program(self, v: T) -> (r: Self)
        ensures
            r.0@ == self.0@.update(WITHDRAW_STAKE_ACCOUNT_IX_ACCS_IDX_STAKE_PROGRAM as int, v),
    {
        let mut s = self;
        s.0[WITHDRAW_STAKE_ACCOUNT_IX_ACCS_IDX_STAKE_PROGRAM] = v;
        s
    }
}

impl WithdrawStakeAccountIxKeysOwned {
    pub fn as_borrowed(&self) -> (r: WithdrawStakeAccountIxKeys<'_>)
        ensures
            forall|i: int| 0 <= i < 16 ==> *#[trigger] r.0[i] == self.0[i],
    {
        WithdrawStakeAccountIxAccs([
            &self.0[0], &self.0[1], &self.0[2], &self.0[3], &self.0[4], &self.0[5], &self.0[6], &self.0[7],
            &self.0[8], &self.0[9], &self.0[10], &self.0[11], &self.0[12], &self.0[13], &self.0[14], &self.0[15],
        ])
    }

    /// Fills the slots read from the pool state.
    pub fn with_keys_from_stake_pool(self, pool: &State) -> (r: Self)
        ensures
            r.0@ == self.0@
                .update(WITHDRAW_STAKE_ACCOUNT_IX_ACCS_IDX_VALIDATOR_LIST as int, pool.validator_system.validator_list.account)
                .update(WITHDRAW_STAKE_ACCOUNT_IX_ACCS_IDX_STAKE_LIST as int, pool.stake_system.stake_list.account)
                .update(WITHDRAW_STAKE_ACCOUNT_IX_ACCS_IDX_MSOL_MINT as int, pool.msol_mint)
                .update(WITHDRAW_STAKE_ACCOUNT_IX_ACCS_IDX_TREASURY_MSOL_ACCOUNT as int, pool.treasury_msol_account),
    {
        let r = self.as_borrowed().with_keys_from_stake_pool(pool).into_owned();
        assert(r.0@ =~= self.0@
            .update(WITHDRAW_STAKE_ACCOUNT_IX_ACCS_IDX_VALIDATOR_LIST as int, pool.validator_system.validator_list.account)
            .update(WITHDRAW_STAKE_ACCOUNT_IX_ACCS_IDX_STAKE_LIST as int, pool.stake_system.stake_list.account)
            .update(WITHDRAW_STAKE_ACCOUNT_IX_ACCS_IDX_MSOL_MINT as int, pool.msol_mint)
            .update(WITHDRAW_STAKE_ACCOUNT_IX_ACCS_IDX_TREASURY_MSOL_ACCOUNT as int, pool.treasury_msol_account));
        r
    }

    /// Fills the slots of fixed well-known addresses.
    pub fn with_consts(self) -> (r: Self)
        ensures
            r.0@ == self.0@
                .update(WITHDRAW_STAKE_ACCOUNT_IX_ACCS_IDX_CLOCK as int, SYSVAR_CLOCK)
                .update(WITHDRAW_STAKE_ACCOUNT_IX_ACCS_IDX_SYSTEM_PROGRAM as int, SYSTEM_PROGRAM)
                .update(WITHDRAW_STAKE_ACCOUNT_IX_ACCS_IDX_TOKEN_PROGRAM as int, TOKEN_PROGRAM)
                .update(WITHDRAW_STAKE_ACCOUNT_IX_ACCS_IDX_STAKE_PROGRAM as int, STAKE_PROGRAM),
    {
        let r = self.as_borrowed().with_consts().into_owned();
        assert(r.0@ =~= self.0@
            .update(WITHDRAW_STAKE_ACCOUNT_IX_ACCS_IDX_CLOCK as int, SYSVAR_CLOCK)
            .update(WITHDRAW_STAKE_ACCOUNT_IX_ACCS_IDX_SYSTEM_PROGRAM as int, SYSTEM_PROGRAM)
            .update(WITHDRAW_STAKE_ACCOUNT_IX_ACCS_IDX_TOKEN_PROGRAM as int, TOKEN_PROGRAM)
            .update(WITHDRAW_STAKE_ACCOUNT_IX_ACCS_IDX_STAKE_PROGRAM as int, STAKE_PROGRAM));
        r
    }

    /// Fills the slots of the pool's own mainnet accounts.
    pub fn with_mainnet_consts(self, addrs: &MainnetAddresses) -> (r: Self)
        requires
            addrs.spec_is_derived(),
        ensures
            r.0@ == self.0@
                .update(WITHDRAW_STAKE_ACCOUNT_IX_ACCS_IDX_STATE as int, STATE_PUBKEY)
                .update(WITHDRAW_STAKE_ACCOUNT_IX_ACCS_IDX_VALIDATOR_LIST as int, VALIDATOR_LIST_PUBKEY)
                .update(WITHDRAW_STAKE_ACCOUNT_IX_ACCS_IDX_STAKE_LIST as int, STAKE_LIST_PUBKEY)
                .update(WITHDRAW_STAKE_ACCOUNT_IX_ACCS_IDX_STAKE_WITHDRAW_AUTHORITY as int, addrs.stake_withdraw_authority)
                .update(WITHDRAW_STAKE_ACCOUNT_IX_ACCS_IDX_STAKE_DEPOSIT_AUTHORITY as int, addrs.stake_deposit_authority),
    {
        let r = self.as_borrowed().with_mainnet_consts(addrs).into_owned();
        assert(r.0@ =~= self.0@
            .update(WITHDRAW_STAKE_ACCOUNT_IX_ACCS_IDX_STATE as int, STATE_PUBKEY)
            .update(WITHDRAW_STAKE_ACCOUNT_IX_ACCS_IDX_VALIDATOR_LIST as int, VALIDATOR_LIST_PUBKEY)
            .update(WITHDRAW_STAKE_ACCOUNT_IX_ACCS_IDX_STAKE_LIST as int, STAKE_LIST_PUBKEY)
            .update(WITHDRAW_STAKE_ACCOUNT_IX_ACCS_IDX_STAKE_WITHDRAW_AUTHORITY as int, addrs.stake_withdraw_authority)
            .update(WITHDRAW_STAKE_ACCOUNT_IX_ACCS_IDX_STAKE_DEPOSIT_AUTHORITY as int, addrs.stake_deposit_authority));
        r
    }
}

impl<'a> WithdrawStakeAccountIxKeys<'a> {
    pub fn into_owned(self) -> (r: WithdrawStakeAccountIxKeysOwned)
        ensures
            forall|i: int| 0 <= i < 16 ==> #[trigger] r.0[i] == *self.0[i],
    {
        WithdrawStakeAccountIxAccs([
            *self.0[0], *self.0[1], *self.0[2], *self.0[3], *self.0[4], *self.0[5], *self.0[6], *self.0[7],
            *self.0[8], *self.0[9], *self.0[10], *self.0[11], *self.0[12], *self.0[13], *self.0[14], *self.0[15],
        ])
    }

    /// Points the slots read from the pool state into `pool`.
    pub fn with_keys_from_stake_pool(self, pool: &'a State) -> (r: Self)
        ensures
            r.0@ == self.0@
                .update(WITHDRAW_STAKE_ACCOUNT_IX_ACCS_IDX_VALIDATOR_LIST as int, &pool.validator_system.validator_list.account)
                .update(WITHDRAW_STAKE_ACCOUNT_IX_ACCS_IDX_STAKE_LIST as int, &pool.stake_system.stake_list.account)
                .update(WITHDRAW_STAKE_ACCOUNT_IX_ACCS_IDX_MSOL_MINT as int, &pool.msol_mint)
                .update(WITHDRAW_STAKE_ACCOUNT_IX_ACCS_IDX_TREASURY_MSOL_ACCOUNT as int, &pool.treasury_msol_account),
    {
        self
            .with_validator_list(&pool.validator_system.validator_list.account)
            .with_stake_list(&pool.stake_system.stake_list.account)
            .with_msol_mint(&pool.msol_mint)
            .with_treasury_msol_account(&pool.treasury_msol_account)
    }

    /// Points the slots of fixed well-known addresses at them.
    pub fn with_consts(self) -> (r: Self)
        ensures
            r.0@ == self.0@
                .update(WITHDRAW_STAKE_ACCOUNT_IX_ACCS_IDX_CLOCK as int, &SYSVAR_CLOCK)
                .update(WITHDRAW_STAKE_ACCOUNT_IX_ACCS_IDX_SYSTEM_PROGRAM as int, &SYSTEM_PROGRAM)
                .update(WITHDRAW_STAKE_ACCOUNT_IX_ACCS_IDX_TOKEN_PROGRAM as int, &TOKEN_PROGRAM)
                .update(WITHDRAW_STAKE_ACCOUNT_IX_ACCS_IDX_STAKE_PROGRAM as int, &STAKE_PROGRAM),
    {
        self
            .with_clock(&SYSVAR_CLOCK)
            .with_system_program(&SYSTEM_PROGRAM)
            .with_token_program(&TOKEN_PROGRAM)
            .with_stake_program(&STAKE_PROGRAM)
    }

    /// Points the slots of the pool's own mainnet accounts at them.
    pub fn with_mainnet_consts(self, addrs: &'a MainnetAddresses) -> (r: Self)
        requires
            addrs.spec_is_derived(),
        ensures
            r.0@ == self.0@
                .update(WITHDRAW_STAKE_ACCOUNT_IX_ACCS_IDX_STATE as int, &STATE_PUBKEY)
                .update(WITHDRAW_STAKE_ACCOUNT_IX_ACCS_IDX_VALIDATOR_LIST as int, &VALIDATOR_LIST_PUBKEY)
                .update(WITHDRAW_STAKE_ACCOUNT_IX_ACCS_IDX_STAKE_LIST as int, &STAKE_LIST_PUBKEY)
                .update(WITHDRAW_STAKE_ACCOUNT_IX_ACCS_IDX_STAKE_WITHDRAW_AUTHORITY as int, &addrs.stake_withdraw_authority)
                .update(WITHDRAW_STAKE_ACCOUNT_IX_ACCS_IDX_STAKE_DEPOSIT_AUTHORITY as int, &addrs.stake_deposit_authority),
    {
        self
            .with_state(&STATE_PUBKEY)
            .with_validator_list(&VALIDATOR_LIST_PUBKEY)
            .with_stake_list(&STAKE_LIST_PUBKEY)
            .with_stake_withdraw_authority(&addrs.stake_withdraw_authority)
            .with_stake_deposit_authority(&addrs.stake_deposit_authority)
    }
}

/// The instruction's data: its tag, then its arguments in little-endian.
#[derive(Debug, Clone, Copy, PartialEq, Eq, Hash)]
pub struct WithdrawStakeAccountIxData(pub [u8; 56]);

impl WithdrawStakeAccountIxData {
    pub fn new(
        stake_index: u32,
        validator_index: u32,
        msol_amount: u64,
        beneficiary: [u8; 32],
    ) -> (r: Self)
        ensures
            r.0@ == INSTRUCTION_DISCRIM_WITHDRAW_STAKE_ACCOUNT@
                + spec_u32_to_le_bytes(stake_index)
                + spec_u32_to_le_bytes(validator_index)
                + spec_u64_to_le_bytes(msol_amount)
                + beneficiary@,
    {
        let mut buf: Vec<u8> = Vec::new();
        extend_bytes(&mut buf, INSTRUCTION_DISCRIM_WITHDRAW_STAKE_ACCOUNT.as_slice());
        let b = u32_to_le_bytes(stake_index);
        extend_bytes(&mut buf, b.as_slice());
        let b = u32_to_le_bytes(validator_index);
        extend_bytes(&mut buf, b.as_slice());
        let b = u64_to_le_bytes(msol_amount);
        extend_bytes(&mut buf, b.as_slice());
        extend_bytes(&mut buf, beneficiary.as_slice());
        proof {
            vstd::bytes::lemma_auto_spec_u32_to_from_le_bytes();
            vstd::bytes::lemma_auto_spec_u64_to_from_le_bytes();
        }
        assert(buf@.len() == 56);
        let arr: [u8; 56] = read_array(buf.as_slice(), 0);
        assert(buf@.subrange(0, 56) =~= buf@);
        WithdrawStakeAccountIxData(arr)
    }

    pub fn to_buf(&self) -> (r: [u8; 56])
        ensures
            r == self.0,
    {
        self.0
    }
}

impl Default for WithdrawStakeAccountIxData {
    fn default() -> (r: Self)
        ensures
            forall|i: int| 0 <= i < 56 ==> #[trigger] r.0[i] == 0,
    {
        WithdrawStakeAccountIxData([0u8; 56])
    }
}

} // verus!
