use vstd::prelude::*;

use crate::consts::MARINADE_STAKING_PROGRAM;
use crate::pda::{
    derive_program_address, program_address_of, MSOL_LEG_AUTHORITY_SEED, MSOL_MINT_AUTHORITY_SEED, RESERVE_SEED, SOL_LEG_SEED, STAKE_DEPOSIT_AUTHORITY_SEED, STAKE_WITHDRAW_AUTHORITY_SEED, liq_pool_msol_leg_authority_seeds, liq_pool_sol_leg_seeds, msol_mint_authority_seeds, reserve_seeds, stake_deposit_authority_seeds, stake_withdraw_authority_seeds,
};

verus! {

// The pool's own mainnet accounts, each the base58 decoding of the text
// above it.

/// `8szGkuLTAux9XMgZ2vtY39jVSowEcpBfFfD8hXSEqdGC`
pub const STATE_PUBKEY: [u8; 32] = [
    117, 17, 155, 49, 117, 128, 117, 134,
    227, 244, 167, 229, 205, 15, 137, 14,
    150, 167, 83, 177, 15, 204, 199, 104,
    30, 148, 115, 160, 8, 50, 112, 241,
];

/// `DwFYJNnhLmw19FBTrVaLWZ8SZJpxdPoSYVSJaio9tjbY`
pub const VALIDATOR_LIST_PUBKEY: [u8; 32] = [
    192, 50, 11, 253, 157, 131, 237, 54,
    187, 231, 100, 240, 226, 12, 199, 251,
    132, 212, 220, 33, 225, 61, 201, 69,
    9, 76, 178, 200, 241, 225, 94, 179,
];

/// `Anv3XE7e5saNdm16MU6bniYS59Mpv7DzQXHAhxJUmAKW`
pub const STAKE_LIST_PUBKEY: [u8; 32] = [
    145, 124, 75, 145, 78, 83, 153, 162,
    146, 125, 61, 110, 220, 101, 27, 103,
    172, 177, 159, 194, 106, 71, 193, 126,
    64, 121, 191, 184, 38, 61, 78, 101,
];

/// `7GgPYjS5Dza89wV6FpZ23kUJRG5vbQ1GM25ezspYFSoE`
pub const LIQ_POOL_MSOL_LEG_PUBKEY: [u8; 32] = [
    93, 42, 94, 229, 104, 92, 23, 224,
    124, 237, 229, 190, 249, 131, 0, 212,
    23, 14, 187, 226, 217, 159, 6, 76,
    75, 176, 94, 233, 123, 53, 222, 125,
];

/// The address derived for the pool's mainnet state account and `seed`.
pub open spec fn state_address_of(seed: Seq<u8>) -> (Seq<u8>, u8) {
    program_address_of(seq![STATE_PUBKEY@, seed], MARINADE_STAKING_PROGRAM@)
}

/// The pool's program-derived mainnet addresses with their bumps: derived
/// once, then passed to whatever needs them.
#[derive(Debug, Clone, Copy, PartialEq, Eq)]
pub struct MainnetAddresses {
    pub liq_pool_sol_leg: [u8; 32],
    pub liq_pool_sol_leg_bump: u8,
    pub liq_pool_msol_leg_authority: [u8; 32],
    pub liq_pool_msol_leg_authority_bump: u8,
    pub reserve: [u8; 32],
    pub reserve_bump: u8,
    pub msol_mint_authority: [u8; 32],
    pub msol_mint_authority_bump: u8,
    pub stake_withdraw_authority: [u8; 32],
    pub stake_withdraw_authority_bump: u8,
    pub stake_deposit_authority: [u8; 32],
    pub stake_deposit_authority_bump: u8,
}

impl MainnetAddresses {
    /// Every address is the one derived from the mainnet state and its seed.
    pub open spec fn spec_is_derived(&self) -> bool {
        &&& (self.liq_pool_sol_leg@, self.liq_pool_sol_leg_bump) == state_address_of(SOL_LEG_SEED@)
        &&& (self.liq_pool_msol_leg_authority@, self.liq_pool_msol_leg_authority_bump) == state_address_of(MSOL_LEG_AUTHORITY_SEED@)
        &&& (self.reserve@, self.reserve_bump) == state_address_of(RESERVE_SEED@)
        &&& (self.msol_mint_authority@, self.msol_mint_authority_bump) == state_address_of(MSOL_MINT_AUTHORITY_SEED@)
        &&& (self.stake_withdraw_authority@, self.stake_withdraw_authority_bump) == state_address_of(STAKE_WITHDRAW_AUTHORITY_SEED@)
        &&& (self.stake_deposit_authority@, self.stake_deposit_authority_bump) == state_address_of(STAKE_DEPOSIT_AUTHORITY_SEED@)
    }

    pub fn derive() -> (r: Self)
        ensures
            r.spec_is_derived(),
    {
        let (state, seed) = liq_pool_sol_leg_seeds(&STATE_PUBKEY);
        let (liq_pool_sol_leg, liq_pool_sol_leg_bump) = derive_program_address(
            state.as_slice(),
            seed.as_slice(),
            &MARINADE_STAKING_PROGRAM,
        );
        let (state, seed) = liq_pool_msol_leg_authority_seeds(&STATE_PUBKEY);
        let (liq_pool_msol_leg_authority, liq_pool_msol_leg_authority_bump) = derive_program_address(
            state.as_slice(),
            seed.as_slice(),
            &MARINADE_STAKING_PROGRAM,
        );
        let (state, seed) = reserve_seeds(&STATE_PUBKEY);
        let (reserve, reserve_bump) = derive_program_address(
            state.as_slice(),
            seed.as_slice(),
            &MARINADE_STAKING_PROGRAM,
        );
        let (state, seed) = msol_mint_authority_seeds(&STATE_PUBKEY);
        let (msol_mint_authority, msol_mint_authority_bump) = derive_program_address(
            state.as_slice(),
            seed.as_slice(),
            &MARINADE_STAKING_PROGRAM,
        );
        let (state, seed) = stake_withdraw_authority_seeds(&STATE_PUBKEY);
        let (stake_withdraw_authority, stake_withdraw_authority_bump) = derive_program_address(
            state.as_slice(),
            seed.as_slice(),
            &MARINADE_STAKING_PROGRAM,
        );
        let (state, seed) = stake_deposit_authority_seeds(&STATE_PUBKEY);
        let (stake_deposit_authority, stake_deposit_authority_bump) = derive_program_address(
            state.as_slice(),
            seed.as_slice(),
            &MARINADE_STAKING_PROGRAM,
        );
        MainnetAddresses { liq_pool_sol_leg, liq_pool_sol_leg_bump, liq_pool_msol_leg_authority, liq_pool_msol_leg_authority_bump, reserve, reserve_bump, msol_mint_authority, msol_mint_authority_bump, stake_withdraw_authority, stake_withdraw_authority_bump, stake_deposit_authority, stake_deposit_authority_bump }
    }
}

} // verus!
