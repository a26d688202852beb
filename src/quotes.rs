use vstd::prelude::*;

use crate::records::StakeRecord;

verus! {

#[derive(Debug, Clone, Copy)]
pub struct DepositSolQuoteArgs {
    /// Staked tokens held by the liquidity pool, available to be swapped.
    pub msol_leg_balance: u64,
}

#[derive(Debug, Clone, Copy, PartialEq, Eq, Structural)]
pub struct DepositSolQuote {
    /// Lamports deposited.
    pub in_amount: u64,
    /// Staked tokens received; deposits carry no fee.
    pub out_amount: u64,
}

#[derive(Debug, Clone, Copy)]
pub struct DepositStakeQuoteArgs {
    /// Staked tokens held by the liquidity pool, available to be swapped.
    pub msol_leg_balance: u64,
}

/// Lamports held by a stake account, delegated and not.
#[derive(Debug, Clone, Copy, PartialEq, Eq, Structural)]
pub struct StakeAccountLamports {
    pub staked: u64,
    pub unstaked: u64,
}

impl StakeAccountLamports {
    pub open spec fn spec_total(&self) -> int {
        self.staked + self.unstaked
    }

    pub fn total(&self) -> (r: u64)
        requires
            self.spec_total() <= u64::MAX,
        ensures
            r == self.spec_total(),
    {
        self.staked + self.unstaked
    }
}

#[derive(Debug, Clone, Copy, PartialEq, Eq, Structural)]
pub struct DepositStakeQuote {
    /// The stake account's lamports, delegated and not.
    pub stake_account_lamports_in: StakeAccountLamports,
    /// Staked tokens received; deposits carry no fee.
    pub tokens_out: u64,
}

#[derive(Debug, Clone, Copy)]
pub struct WithdrawStakeQuoteArgs {
    /// The stake list entry of the stake account to split from.
    pub stake_record: StakeRecord,
}

#[derive(Debug, Clone, Copy, PartialEq, Eq, Structural)]
pub struct WithdrawStakeQuote {
    pub tokens_in: u64,
    pub lamports_staked: u64,
    /// Fee levied in staked tokens, sent to the treasury.
    pub fee_amount: u64,
}

} // verus!
