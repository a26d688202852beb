use vstd::prelude::*;

use vstd::bytes::{spec_u32_to_le_bytes, u32_to_le_bytes};

use crate::bytes::{extend_bytes, read_array};
use crate::consts::{STAKE_PROGRAM, SYSTEM_PROGRAM, SYSVAR_CLOCK, SYSVAR_RENT, TOKEN_PROGRAM};
use crate::keys::{MainnetAddresses, STATE_PUBKEY};
use crate::state::State;

verus! {

/// Tag that starts the instruction's data.
pub const INSTRUCTION_DISCRIM_DEPOSIT_STAKE_ACCOUNT: [u8; 8] = [110, 130, 115, 41, 164, 102, 2, 59];

/// Number of accounts the instruction takes.
pub const DEPOSIT_STAKE_ACCOUNT_IX_ACCS_LEN: usize = 15;

pub const DEPOSIT_STAKE_ACCOUNT_IX_ACCS_IDX_STATE: usize = 0;

pub const DEPOSIT_STAKE_ACCOUNT_IX_ACCS_IDX_VALIDATOR_LIST: usize = 1;

pub const DEPOSIT_STAKE_ACCOUNT_IX_ACCS_IDX_STAKE_LIST: usize = 2;

pub const DEPOSIT_STAKE_ACCOUNT_IX_ACCS_IDX_STAKE_ACCOUNT: usize = 3;

pub const DEPOSIT_STAKE_ACCOUNT_IX_ACCS_IDX_STAKE_AUTHORITY: usize = 4;

pub const DEPOSIT_STAKE_ACCOUNT_IX_ACCS_IDX_DUPLICATION_FLAG: usize = 5;

pub const DEPOSIT_STAKE_ACCOUNT_IX_ACCS_IDX_RENT_PAYER: usize = 6;

pub const DEPOSIT_STAKE_ACCOUNT_IX_ACCS_IDX_MSOL_MINT: usize = 7;

pub const DEPOSIT_STAKE_ACCOUNT_IX_ACCS_IDX_MINT_TO: usize = 8;

pub const DEPOSIT_STAKE_ACCOUNT_IX_ACCS_IDX_MSOL_MINT_AUTHORITY: usize = 9;

pub const DEPOSIT_STAKE_ACCOUNT_IX_ACCS_IDX_CLOCK: usize = 10;

pub const DEPOSIT_STAKE_ACCOUNT_IX_ACCS_IDX_RENT: usize = 11;

pub const DEPOSIT_STAKE_ACCOUNT_IX_ACCS_IDX_SYSTEM_PROGRAM: usize = 12;

pub const DEPOSIT_STAKE_ACCOUNT_IX_ACCS_IDX_TOKEN_PROGRAM: usize = 13;

pub const DEPOSIT_STAKE_ACCOUNT_IX_ACCS_IDX_STAKE_PROGRAM: usize = 14;

/// The instruction's accounts, one slot each, in the order the program reads them.
#[derive(Debug, Default, Clone, Copy, PartialEq, Eq, Hash)]
pub struct DepositStakeAccountIxAccs<T>(pub [T; 15]);

pub type DepositStakeAccountIxKeysOwned = DepositStakeAccountIxAccs<[u8; 32]>;

pub type DepositStakeAccountIxKeys<'a> = DepositStakeAccountIxAccs<&'a [u8; 32]>;

pub type DepositStakeAccountIxAccsFlag = DepositStakeAccountIxAccs<bool>;

/// Which slots the instruction writes.
pub const DEPOSIT_STAKE_ACCOUNT_IX_PREFIX_IS_WRITER: [bool; 15] = [
    true, // state
    true, // validator_list
    true, // stake_list
    true, // stake_account
    false, // stake_authority
    true, // duplication_flag
    true, // rent_payer
    true, // msol_mint
    true, // mint_to
    false, // msol_mint_authority
    false, // clock
    false, // rent
    false, // system_program
    false, // token_program
    false, // stake_program
];

/// Which slots must sign.
pub const DEPOSIT_STAKE_ACCOUNT_IX_PREFIX_IS_SIGNER: [bool; 15] = [
    false, // state
    false, // validator_list
    false, // stake_list
    false, // stake_account
    true, // stake_authority
    false, // duplication_flag
    true, // rent_payer
    false, // msol_mint
    false, // mint_to
    false, // msol_mint_authority
    false, // clock
    false, // rent
    false, // system_program
    false, // token_program
    false, // stake_program
];

impl<T> DepositStakeAccountIxAccs<T> {
    pub fn new(arr: [T; 15]) -> (r: Self)
        ensures
            r.0 == arr,
    {
        DepositStakeAccountIxAccs(arr)
    }

    /// The same slots with `state` set to `v`.
    pub fn with_state(self, v: T) -> (r: Self)
        ensures
            r.0@ == self.0@.update(DEPOSIT_STAKE_ACCOUNT_IX_ACCS_IDX_STATE as int, v),
    {
        let mut s = self;
        s.0[DEPOSIT_STAKE_ACCOUNT_IX_ACCS_IDX_STATE] = v;
        s
    }

    /// The same slots with `validator_list` set to `v`.
    pub fn with_validator_list(self, v: T) -> (r: Self)
        ensures
            r.0@ == self.0@.update(DEPOSIT_STAKE_ACCOUNT_IX_ACCS_IDX_VALIDATOR_LIST as int, v),
    {
        let mut s = self;
        s.0[DEPOSIT_STAKE_ACCOUNT_IX_ACCS_IDX_VALIDATOR_LIST] = v;
        s
    }

    /// The same slots with `stake_list` set to `v`.
    pub fn with_stake_list(self, v: T) -> (r: Self)
        ensures
            r.0@ == self.0@.update(DEPOSIT_STAKE_ACCOUNT_IX_ACCS_IDX_STAKE_LIST as int, v),
    {
        let mut s = self;
        s.0[DEPOSIT_STAKE_ACCOUNT_IX_ACCS_IDX_STAKE_LIST] = v;
        s
    }

    /// The same slots with `stake_account` set to `v`.
    pub fn with_stake_account(self, v: T) -> (r: Self)
        ensures
            r.0@ == self.0@.update(DEPOSIT_STAKE_ACCOUNT_IX_ACCS_IDX_STAKE_ACCOUNT as int, v),
    {
        let mut s = self;
        s.0[DEPOSIT_STAKE_ACCOUNT_IX_ACCS_IDX_STAKE_ACCOUNT] = v;
        s
    }

    /// The same slots with `stake_authority` set to `v`.
    pub fn with_stake_authority(self, v: T) -> (r: Self)
        ensures
            r.0@ == self.0@.update(DEPOSIT_STAKE_ACCOUNT_IX_ACCS_IDX_STAKE_AUTHORITY as int, v),
    {
        let mut s = self;
        s.0[DEPOSIT_STAKE_ACCOUNT_IX_ACCS_IDX_STAKE_AUTHORITY] = v;
        s
    }

    /// The same slots with `duplication_flag` set to `v`.
    pub fn with_duplication_flag(self, v: T) -> (r: Self)
        ensures
            r.0@ == self.0@.update(DEPOSIT_STAKE_ACCOUNT_IX_ACCS_IDX_DUPLICATION_FLAG as int, v),
    {
        let mut s = self;
        s.0[DEPOSIT_STAKE_ACCOUNT_IX_ACCS_IDX_DUPLICATION_FLAG] = v;
        s
    }

    /// The same slots with `rent_payer` set to `v`.
    pub fn with_rent_payer(self, v: T) -> (r: Self)
        ensures
            r.0@ == self.0@.update(DEPOSIT_STAKE_ACCOUNT_IX_ACCS_IDX_RENT_PAYER as int, v),
    {
        let mut s = self;
        s.0[DEPOSIT_STAKE_ACCOUNT_IX_ACCS_IDX_RENT_PAYER] = v;
        s
    }

    /// The same slots with `msol_mint` set to `v`.
    pub fn with_msol_mint(self, v: T) -> (r: Self)
        ensures
            r.0@ == self.0@.update(DEPOSIT_STAKE_ACCOUNT_IX_ACCS_IDX_MSOL_MINT as int, v),
    {
        let mut s = self;
        s.0[DEPOSIT_STAKE_ACCOUNT_IX_ACCS_IDX_MSOL_MINT] = v;
        s
    }

    /// The same slots with `mint_to` set to `v`.
    pub fn with_mint_to(self, v: T) -> (r: Self)
        ensures
            r.0@ == self.0@.update(DEPOSIT_STAKE_ACCOUNT_IX_ACCS_IDX_MINT_TO as int, v),
    {
        let mut s = self;
        s.0[DEPOSIT_STAKE_ACCOUNT_IX_ACCS_IDX_MINT_TO] = v;
        s
    }

    /// The same slots with `msol_mint_authority` set to `v`.
    pub fn with_msol_mint_authority(self, v: T) -> (r: Self)
        ensures
            r.0@ == self.0@.update(DEPOSIT_STAKE_ACCOUNT_IX_ACCS_IDX_MSOL_MINT_AUTHORITY as int, v),
    {
        let mut s = self;
        s.0[DEPOSIT_STAKE_ACCOUNT_IX_ACCS_IDX_MSOL_MINT_AUTHORITY] = v;
        s
    }

    /// The same slots with `clock` set to `v`.
    pub fn with_clock(self, v: T) -> (r: Self)
        ensures
            r.0@ == self.0@.update(DEPOSIT_STAKE_ACCOUNT_IX_ACCS_IDX_CLOCK as int, v),
    {
        let mut s = self;
        s.0[DEPOSIT_STAKE_ACCOUNT_IX_ACCS_IDX_CLOCK] = v;
        s
    }

    /// The same slots with `rent` set to `v`.
    pub fn with_rent(self, v: T) -> (r: Self)
        ensures
            r.0@ == self.0@.update(DEPOSIT_STAKE_ACCOUNT_IX_ACCS_IDX_RENT as int, v),
    {
        let mut s = self;
        s.0[DEPOSIT_STAKE_ACCOUNT_IX_ACCS_IDX_RENT] = v;
        s
    }

    /// The same slots with `system_program` set to `v`.
    pub fn with_system_program(self, v: T) -> (r: Self)
        ensures
            r.0@ == self.0@.update(DEPOSIT_STAKE_ACCOUNT_IX_ACCS_IDX_SYSTEM_PROGRAM as int, v),
    {
        let mut s = self;
        s.0[DEPOSIT_STAKE_ACCOUNT_IX_ACCS_IDX_SYSTEM_PROGRAM] = v;
        s
    }

    /// The same slots with `token_program` set to `v`.
    pub fn with_token_program(self, v: T) -> (r: Self)
        ensures
            r.0@ == self.0@.update(DEPOSIT_STAKE_ACCOUNT_IX_ACCS_IDX_TOKEN_PROGRAM as int, v),
    {
        let mut s = self;
        s.0[DEPOSIT_STAKE_ACCOUNT_IX_ACCS_IDX_TOKEN_PROGRAM] = v;
        s
    }

    /// The same slots with `stake_program` set to `v`.
    pub fn with_stake_program(self, v: T) -> (r: Self)
        ensures
            r.0@ == self.0@.update(DEPOSIT_STAKE_ACCOUNT_IX_ACCS_IDX_STAKE_PROGRAM as int, v),
    {
        let mut s = self;
        s.0[DEPOSIT_STAKE_ACCOUNT_IX_ACCS_IDX_STAKE_PROGRAM] = v;
        s
    }
}

impl DepositStakeAccountIxKeysOwned {
    pub fn as_borrowed(&self) -> (r: DepositStakeAccountIxKeys<'_>)
        ensures
            forall|i: int| 0 <= i < 15 ==> *#[trigger] r.0[i] == self.0[i],
    {
        DepositStakeAccountIxAccs([
            &self.0[0], &self.0[1], &self.0[2], &self.0[3], &self.0[4], &self.0[5], &self.0[6], &self.0[7],
            &self.0[8], &self.0[9], &self.0[10], &self.0[11], &self.0[12], &self.0[13], &self.0[14],
        ])
    }

    /// Fills the slots read from the pool state.
    pub fn with_keys_from_stake_pool(self, pool: &State) -> (r: Self)
        ensures
            r.0@ == self.0@
                .update(DEPOSIT_STAKE_ACCOUNT_IX_ACCS_IDX_VALIDATOR_LIST as int, pool.validator_system.validator_list.account)
                .update(DEPOSIT_STAKE_ACCOUNT_IX_ACCS_IDX_STAKE_LIST as int, pool.stake_system.stake_list.account)
                .update(DEPOSIT_STAKE_ACCOUNT_IX_ACCS_IDX_MSOL_MINT as int, pool.msol_mint),
    {
        let r = self.as_borrowed().with_keys_from_stake_pool(pool).into_owned();
        assert(r.0@ =~= self.0@
            .update(DEPOSIT_STAKE_ACCOUNT_IX_ACCS_IDX_VALIDATOR_LIST as int, pool.validator_system.validator_list.account)
            .update(DEPOSIT_STAKE_ACCOUNT_IX_ACCS_IDX_STAKE_LIST as int, pool.stake_system.stake_list.account)
            .update(DEPOSIT_STAKE_ACCOUNT_IX_ACCS_IDX_MSOL_MINT as int, pool.msol_mint));
        r
    }

    /// Fills the slots of fixed well-known addresses.
    pub fn with_consts(self) -> (r: Self)
        ensures
            r.0@ == self.0@
                .update(DEPOSIT_STAKE_ACCOUNT_IX_ACCS_IDX_CLOCK as int, SYSVAR_CLOCK)
                .update(DEPOSIT_STAKE_ACCOUNT_IX_ACCS_IDX_RENT as int, SYSVAR_RENT)
                .update(DEPOSIT_STAKE_ACCOUNT_IX_ACCS_IDX_SYSTEM_PROGRAM as int, SYSTEM_PROGRAM)
                .update(DEPOSIT_STAKE_ACCOUNT_IX_ACCS_IDX_TOKEN_PROGRAM as int, TOKEN_PROGRAM)
                .update(DEPOSIT_STAKE_ACCOUNT_IX_ACCS_IDX_STAKE_PROGRAM as int, STAKE_PROGRAM),
    {
        let r = self.as_borrowed().with_consts().into_owned();
        assert(r.0@ =~= self.0@
            .update(DEPOSIT_STAKE_ACCOUNT_IX_ACCS_IDX_CLOCK as int, SYSVAR_CLOCK)
            .update(DEPOSIT_STAKE_ACCOUNT_IX_ACCS_IDX_RENT as int, SYSVAR_RENT)
            .update(DEPOSIT_STAKE_ACCOUNT_IX_ACCS_IDX_SYSTEM_PROGRAM as int, SYSTEM_PROGRAM)
            .update(DEPOSIT_STAKE_ACCOUNT_IX_ACCS_IDX_TOKEN_PROGRAM as int, TOKEN_PROGRAM)
            .update(DEPOSIT_STAKE_ACCOUNT_IX_ACCS_IDX_STAKE_PROGRAM as int, STAKE_PROGRAM));
        r
    }

    /// Fills the slots of the pool's own mainnet accounts.
    pub fn with_mainnet_consts(self, addrs: &MainnetAddresses) -> (r: Self)
        requires
            addrs.spec_is_derived(),
        ensures
            r.0@ == self.0@
                .update(DEPOSIT_STAKE_ACCOUNT_IX_ACCS_IDX_MSOL_MINT_AUTHORITY as int, addrs.msol_mint_authority)
                .update(DEPOSIT_STAKE_ACCOUNT_IX_ACCS_IDX_STATE as int, STATE_PUBKEY),
    {
        let r = self.as_borrowed().with_mainnet_consts(addrs).into_owned();
        assert(r.0@ =~= self.0@
            .update(DEPOSIT_STAKE_ACCOUNT_IX_ACCS_IDX_MSOL_MINT_AUTHORITY as int, addrs.msol_mint_authority)
            .update(DEPOSIT_STAKE_ACCOUNT_IX_ACCS_IDX_STATE as int, STATE_PUBKEY));
        r
    }
}

impl<'a> DepositStakeAccountIxKeys<'a> {
    pub fn into_owned(self) -> (r: DepositStakeAccountIxKeysOwned)
        ensures
            forall|i: int| 0 <= i < 15 ==> #[trigger] r.0[i] == *self.0[i],
    {
        DepositStakeAccountIxAccs([
            *self.0[0], *self.0[1], *self.0[2], *self.0[3], *self.0[4], *self.0[5], *self.0[6], *self.0[7],
            *self.0[8], *self.0[9], *self.0[10], *self.0[11], *self.0[12], *self.0[13], *self.0[14],
        ])
    }

    /// Points the slots read from the pool state into `pool`.
    pub fn with_keys_from_stake_pool(self, pool: &'a State) -> (r: Self)
        ensures
            r.0@ == self.0@
                .update(DEPOSIT_STAKE_ACCOUNT_IX_ACCS_IDX_VALIDATOR_LIST as int, &pool.validator_system.validator_list.account)
                .update(DEPOSIT_STAKE_ACCOUNT_IX_ACCS_IDX_STAKE_LIST as int, &pool.stake_system.stake_list.account)
                .update(DEPOSIT_STAKE_ACCOUNT_IX_ACCS_IDX_MSOL_MINT as int, &pool.msol_mint),
    {
        self
            .with_validator_list(&pool.validator_system.validator_list.account)
            .with_stake_list(&pool.stake_system.stake_list.account)
            .with_msol_mint(&pool.msol_mint)
    }

    /// Points the slots of fixed well-known addresses at them.
    pub fn with_consts(self) -> (r: Self)
        ensures
            r.0@ == self.0@
                .update(DEPOSIT_STAKE_ACCOUNT_IX_ACCS_IDX_CLOCK as int, &SYSVAR_CLOCK)
                .update(DEPOSIT_STAKE_ACCOUNT_IX_ACCS_IDX_RENT as int, &SYSVAR_RENT)
                .update(DEPOSIT_STAKE_ACCOUNT_IX_ACCS_IDX_SYSTEM_PROGRAM as int, &SYSTEM_PROGRAM)
                .update(DEPOSIT_STAKE_ACCOUNT_IX_ACCS_IDX_TOKEN_PROGRAM as int, &TOKEN_PROGRAM)
                .update(DEPOSIT_STAKE_ACCOUNT_IX_ACCS_IDX_STAKE_PROGRAM as int, &STAKE_PROGRAM),
    {
        self
            .with_clock(&SYSVAR_CLOCK)
            .with_rent(&SYSVAR_RENT)
            .with_system_program(&SYSTEM_PROGRAM)
            .with_token_program(&TOKEN_PROGRAM)
            .with_stake_program(&STAKE_PROGRAM)
    }

    /// Points the slots of the pool's own mainnet accounts at them.
    pub fn with_mainnet_consts(self, addrs: &'a MainnetAddresses) -> (r: Self)
        requires
            addrs.spec_is_derived(),
        ensures
            r.0@ == self.0@
                .update(DEPOSIT_STAKE_ACCOUNT_IX_ACCS_IDX_MSOL_MINT_AUTHORITY as int, &addrs.msol_mint_authority)
                .update(DEPOSIT_STAKE_ACCOUNT_IX_ACCS_IDX_STATE as int, &STATE_PUBKEY),
    {
        self
            .with_msol_mint_authority(&addrs.msol_mint_authority)
            .with_state(&STATE_PUBKEY)
    }
}

/// The instruction's data: its tag, then its arguments in little-endian.
#[derive(Debug, Default, Clone, Copy, PartialEq, Eq, Hash)]
pub struct DepositStakeAccountIxData(pub [u8; 12]);

impl DepositStakeAccountIxData {
    pub fn new(validator_index: u32) -> (r: Self)
        ensures
            r.0@ == INSTRUCTION_DISCRIM_DEPOSIT_STAKE_ACCOUNT@ + spec_u32_to_le_bytes(validator_index),
    {
        let mut buf: Vec<u8> = Vec::new();
        extend_bytes(&mut buf, INSTRUCTION_DISCRIM_DEPOSIT_STAKE_ACCOUNT.as_slice());
        let b = u32_to_le_bytes(validator_index);
        extend_bytes(&mut buf, b.as_slice());
        proof {
            vstd::bytes::lemma_auto_spec_u32_to_from_le_bytes();
        }
        assert(buf@.len() == 12);
        let arr: [u8; 12] = read_array(buf.as_slice(), 0);
        assert(buf@.subrange(0, 12) =~= buf@);
        DepositStakeAccountIxData(arr)
    }

    pub fn to_buf(&self) -> (r: [u8; 12])
        ensures
            r == self.0,
    {
        self.0
    }
}

} // verus!
