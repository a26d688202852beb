use vstd::prelude::*;

use vstd::bytes::{spec_u64_to_le_bytes, u64_to_le_bytes};

use crate::bytes::{extend_bytes, read_array};
use crate::consts::{SYSTEM_PROGRAM, TOKEN_PROGRAM};
use crate::state::State;

verus! {

/// Tag that starts the instruction's data.
pub const INSTRUCTION_DISCRIM_DEPOSIT: [u8; 8] = [242, 35, 198, 137, 82, 225, 242, 182];

/// Number of accounts the instruction takes.
pub const DEPOSIT_IX_ACCS_LEN: usize = 11;

pub const DEPOSIT_IX_ACCS_IDX_STATE: usize = 0;

pub const DEPOSIT_IX_ACCS_IDX_MSOL_MINT: usize = 1;

pub const DEPOSIT_IX_ACCS_IDX_LIQ_POOL_SOL_LEG_PDA: usize = 2;

pub const DEPOSIT_IX_ACCS_IDX_LIQ_POOL_MSOL_LEG: usize = 3;

pub const DEPOSIT_IX_ACCS_IDX_LIQ_POOL_MSOL_LEG_AUTHORITY: usize = 4;

pub const DEPOSIT_IX_ACCS_IDX_RESERVE_PDA: usize = 5;

pub const DEPOSIT_IX_ACCS_IDX_TRANSFER_FROM: usize = 6;

pub const DEPOSIT_IX_ACCS_IDX_MINT_TO: usize = 7;

pub const DEPOSIT_IX_ACCS_IDX_MSOL_MINT_AUTHORITY: usize = 8;

pub const DEPOSIT_IX_ACCS_IDX_SYSTEM_PROGRAM: usize = 9;

pub const DEPOSIT_IX_ACCS_IDX_TOKEN_PROGRAM: usize = 10;

/// The instruction's accounts, one slot each, in the order the program reads them.
#[derive(Debug, Default, Clone, Copy, PartialEq, Eq, Hash)]
pub struct DepositIxAccs<T>(pub [T; 11]);

pub type DepositIxKeysOwned = DepositIxAccs<[u8; 32]>;

pub type DepositIxKeys<'a> = DepositIxAccs<&'a [u8; 32]>;

pub type DepositIxAccsFlag = DepositIxAccs<bool>;

/// Which slots the instruction writes.
pub const DEPOSIT_IX_PREFIX_IS_WRITER: [bool; 11] = [
    true, // state
    true, // msol_mint
    true, // liq_pool_sol_leg_pda
    true, // liq_pool_msol_leg
    false, // liq_pool_msol_leg_authority
    true, // reserve_pda
    true, // transfer_from
    true, // mint_to
    false, // msol_mint_authority
    false, // system_program
    false, // token_program
];

/// Which slots must sign.
pub const DEPOSIT_IX_PREFIX_IS_SIGNER: [bool; 11] = [
    false, // state
    false, // msol_mint
    false, // liq_pool_sol_leg_pda
    false, // liq_pool_msol_leg
    false, // liq_pool_msol_leg_authority
    false, // reserve_pda
    true, // transfer_from
    false, // mint_to
    false, // msol_mint_authority
    false, // system_program
    false, // token_program
];

impl<T> DepositIxAccs<T> {
    pub fn new(arr: [T; 11]) -> (r: Self)
        ensures
            r.0 == arr,
    {
        DepositIxAccs(arr)
    }

    /// The same slots with `state` set to `v`.
    pub fn with_state(self, v: T) -> (r: Self)
        ensures
            r.0@ == self.0@.update(DEPOSIT_IX_ACCS_IDX_STATE as int, v),
    {
        let mut s = self;
        s.0[DEPOSIT_IX_ACCS_IDX_STATE] = v;
        s
    }

    /// The same slots with `msol_mint` set to `v`.
    pub fn with_msol_mint(self, v: T) -> (r: Self)
        ensures
            r.0@ == self.0@.update(DEPOSIT_IX_ACCS_IDX_MSOL_MINT as int, v),
    {
        let mut s = self;
        s.0[DEPOSIT_IX_ACCS_IDX_MSOL_MINT] = v;
        s
    }

    /// The same slots with `liq_pool_sol_leg_pda` set to `v`.
    pub fn with_liq_pool_sol_leg_pda(self, v: T) -> (r: Self)
        ensures
            r.0@ == self.0@.update(DEPOSIT_IX_ACCS_IDX_LIQ_POOL_SOL_LEG_PDA as int, v),
    {
        let mut s = self;
        s.0[DEPOSIT_IX_ACCS_IDX_LIQ_POOL_SOL_LEG_PDA] = v;
        s
    }

    /// The same slots with `liq_pool_msol_leg` set to `v`.
    pub fn with_liq_pool_msol_leg(self, v: T) -> (r: Self)
        ensures
            r.0@ == self.0@.update(DEPOSIT_IX_ACCS_IDX_LIQ_POOL_MSOL_LEG as int, v),
    {
        let mut s = self;
        s.0[DEPOSIT_IX_ACCS_IDX_LIQ_POOL_MSOL_LEG] = v;
        s
    }

    /// The same slots with `liq_pool_msol_leg_authority` set to `v`.
    pub fn with_liq_pool_msol_leg_authority(self, v: T) -> (r: Self)
        ensures
            r.0@ == self.0@.update(DEPOSIT_IX_ACCS_IDX_LIQ_POOL_MSOL_LEG_AUTHORITY as int, v),
    {
        let mut s = self;
        s.0[DEPOSIT_IX_ACCS_IDX_LIQ_POOL_MSOL_LEG_AUTHORITY] = v;
        s
    }

    /// The same slots with `reserve_pda` set to `v`.
    pub fn with_reserve_pda(self, v: T) -> (r: Self)
        ensures
            r.0@ == self.0@.update(DEPOSIT_IX_ACCS_IDX_RESERVE_PDA as int, v),
    {
        let mut s = self;
        s.0[DEPOSIT_IX_ACCS_IDX_RESERVE_PDA] = v;
        s
    }

    /// The same slots with `transfer_from` set to `v`.
    pub fn with_transfer_from(self, v: T) -> (r: Self)
        ensures
            r.0@ == self.0@.update(DEPOSIT_IX_ACCS_IDX_TRANSFER_FROM as int, v),
    {
        let mut s = self;
        s.0[DEPOSIT_IX_ACCS_IDX_TRANSFER_FROM] = v;
        s
    }

    /// The same slots with `mint_to` set to `v`.
    pub fn with_mint_to(self, v: T) -> (r: Self)
        ensures
            r.0@ == self.0@.update(DEPOSIT_IX_ACCS_IDX_MINT_TO as int, v),
    {
        let mut s = self;
        s.0[DEPOSIT_IX_ACCS_IDX_MINT_TO] = v;
        s
    }

    /// The same slots with `msol_mint_authority` set to `v`.
    pub fn with_msol_mint_authority(self, v: T) -> (r: Self)
        ensures
            r.0@ == self.0@.update(DEPOSIT_IX_ACCS_IDX_MSOL_MINT_AUTHORITY as int, v),
    {
        let mut s = self;
        s.0[DEPOSIT_IX_ACCS_IDX_MSOL_MINT_AUTHORITY] = v;
        s
    }

    /// The same slots with `system_program` set to `v`.
    pub fn with_system_program(self, v: T) -> (r: Self)
        ensures
            r.0@ == self.0@.update(DEPOSIT_IX_ACCS_IDX_SYSTEM_PROGRAM as int, v),
    {
        let mut s = self;
        s.0[DEPOSIT_IX_ACCS_IDX_SYSTEM_PROGRAM] = v;
        s
    }

    /// The same slots with `token_program` set to `v`.
    pub fn with_token_program(self, v: T) -> (r: Self)
        ensures
            r.0@ == self.0@.update(DEPOSIT_IX_ACCS_IDX_TOKEN_PROGRAM as int, v),
    {
        let mut s = self;
        s.0[DEPOSIT_IX_ACCS_IDX_TOKEN_PROGRAM] = v;
        s
    }
}

impl DepositIxKeysOwned {
    pub fn as_borrowed(&self) -> (r: DepositIxKeys<'_>)
        ensures
            forall|i: int| 0 <= i < 11 ==> *#[trigger] r.0[i] == self.0[i],
    {
        DepositIxAccs([
            &self.0[0], &self.0[1], &self.0[2], &self.0[3], &self.0[4], &self.0[5], &self.0[6], &self.0[7],
            &self.0[8], &self.0[9], &self.0[10],
        ])
    }

    /// Fills the slots read from the pool state.
    pub fn with_keys_from_stake_pool(self, pool: &State) -> (r: Self)
        ensures
            r.0@ == self.0@
                .update(DEPOSIT_IX_ACCS_IDX_MSOL_MINT as int, pool.msol_mint)
                .update(DEPOSIT_IX_ACCS_IDX_LIQ_POOL_MSOL_LEG as int, pool.liq_pool.msol_leg),
    {
        let r = self.as_borrowed().with_keys_from_stake_pool(pool).into_owned();
        assert(r.0@ =~= self.0@
            .update(DEPOSIT_IX_ACCS_IDX_MSOL_MINT as int, pool.msol_mint)
            .update(DEPOSIT_IX_ACCS_IDX_LIQ_POOL_MSOL_LEG as int, pool.liq_pool.msol_leg));
        r
    }

    /// Fills the slots of fixed well-known addresses.
    pub fn with_consts(self) -> (r: Self)
        ensures
            r.0@ == self.0@
                .update(DEPOSIT_IX_ACCS_IDX_SYSTEM_PROGRAM as int, SYSTEM_PROGRAM)
                .update(DEPOSIT_IX_ACCS_IDX_TOKEN_PROGRAM as int, TOKEN_PROGRAM),
    {
        let r = self.as_borrowed().with_consts().into_owned();
        assert(r.0@ =~= self.0@
            .update(DEPOSIT_IX_ACCS_IDX_SYSTEM_PROGRAM as int, SYSTEM_PROGRAM)
            .update(DEPOSIT_IX_ACCS_IDX_TOKEN_PROGRAM as int, TOKEN_PROGRAM));
        r
    }
}

impl<'a> DepositIxKeys<'a> {
    pub fn into_owned(self) -> (r: DepositIxKeysOwned)
        ensures
            forall|i: int| 0 <= i < 11 ==> #[trigger] r.0[i] == *self.0[i],
    {
        DepositIxAccs([
            *self.0[0], *self.0[1], *self.0[2], *self.0[3], *self.0[4], *self.0[5], *self.0[6], *self.0[7],
            *self.0[8], *self.0[9], *self.0[10],
        ])
    }

    /// Points the slots read from the pool state into `pool`.
    pub fn with_keys_from_stake_pool(self, pool: &'a State) -> (r: Self)
        ensures
            r.0@ == self.0@
                .update(DEPOSIT_IX_ACCS_IDX_MSOL_MINT as int, &pool.msol_mint)
                .update(DEPOSIT_IX_ACCS_IDX_LIQ_POOL_MSOL_LEG as int, &pool.liq_pool.msol_leg),
    {
        self
            .with_msol_mint(&pool.msol_mint)
            .with_liq_pool_msol_leg(&pool.liq_pool.msol_leg)
    }

    /// Points the slots of fixed well-known addresses at them.
    pub fn with_consts(self) -> (r: Self)
        ensures
            r.0@ == self.0@
                .update(DEPOSIT_IX_ACCS_IDX_SYSTEM_PROGRAM as int, &SYSTEM_PROGRAM)
                .update(DEPOSIT_IX_ACCS_IDX_TOKEN_PROGRAM as int, &TOKEN_PROGRAM),
    {
        self
            .with_system_program(&SYSTEM_PROGRAM)
            .with_token_program(&TOKEN_PROGRAM)
    }
}

/// The instruction's data: its tag, then its arguments in little-endian.
#[derive(Debug, Default, Clone, Copy, PartialEq, Eq, Hash)]
pub struct DepositIxData(pub [u8; 16]);

impl DepositIxData {
    pub fn new(deposit_lamports: u64) -> (r: Self)
        ensures
            r.0@ == INSTRUCTION_DISCRIM_DEPOSIT@ + spec_u64_to_le_bytes(deposit_lamports),
    {
        let mut buf: Vec<u8> = Vec::new();
        extend_bytes(&mut buf, INSTRUCTION_DISCRIM_DEPOSIT.as_slice());
        let b = u64_to_le_bytes(deposit_lamports);
        extend_bytes(&mut buf, b.as_slice());
        proof {
            vstd::bytes::lemma_auto_spec_u64_to_from_le_bytes();
        }
        assert(buf@.len() == 16);
        let arr: [u8; 16] = read_array(buf.as_slice(), 0);
        assert(buf@.subrange(0, 16) =~= buf@);
        DepositIxData(arr)
    }

    pub fn to_buf(&self) -> (r: [u8; 16])
        ensures
            r == self.0,
    {
        self.0
    }
}

} // verus!
