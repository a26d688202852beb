use vstd::prelude::*;

use crate::fee::Fee;

verus! {

/// Header of a list account: where it lives and how its records are sized.
#[derive(Debug, Clone, Copy, PartialEq, Eq, Default)]
pub struct List {
    pub account: [u8; 32],
    pub item_size: u32,
    pub count: u32,
    pub _reserved1: [u8; 32],
    pub _reserved2: u32,
}

impl List {
    pub fn item_size(&self) -> (r: u32)
        ensures
            r == self.item_size,
    {
        self.item_size
    }

    pub fn len(&self) -> (r: u32)
        ensures
            r == self.count,
    {
        self.count
    }

    pub fn is_empty(&self) -> (r: bool)
        ensures
            r == (self.count == 0),
    {
        self.count == 0
    }
}

/// Stake bookkeeping of the pool.
#[derive(Debug, Clone, Copy, PartialEq, Eq, Default)]
pub struct StakeSystem {
    pub stake_list: List,
    pub delayed_unstake_cooling_down: u64,
    pub stake_deposit_bump_seed: u8,
    pub stake_withdraw_bump_seed: u8,
    /// How many slots before the end of the epoch the stake delta may start.
    pub slots_for_stake_delta: u64,
    pub last_stake_delta_epoch: u64,
    pub min_stake: u64,
    pub extra_stake_delta_runs: u32,
}

/// Validator bookkeeping of the pool.
#[derive(Debug, Clone, Copy, PartialEq, Eq, Default)]
pub struct ValidatorSystem {
    pub validator_list: List,
    pub manager_authority: [u8; 32],
    pub total_validator_score: u32,
    /// Sum of all active staked lamports.
    pub total_active_balance: u64,
    /// No longer used.
    pub auto_add_validator_enabled: u8,
}

/// The liquidity pool that swaps the staked token against lamports.
#[derive(Debug, Clone, Copy, PartialEq, Eq, Default)]
pub struct LiqPool {
    pub lp_mint: [u8; 32],
    pub lp_mint_authority_bump_seep: u8,
    pub sol_leg_bump_seed: u8,
    pub msol_leg_authority_bump_seed: u8,
    pub msol_leg: [u8; 32],
    pub lp_liquidity_target: u64,
    pub lp_max_fee: Fee,
    pub lp_min_fee: Fee,
    pub treasury_cut: Fee,
    pub lp_supply: u64,
    pub lent_from_sol_leg: u64,
    pub liquidity_sol_cap: u64,
}

} // verus!
