use vstd::prelude::*;

use sanctum_u64_ratio::{Floor, Ratio};

use crate::error::MarinadeError;
use crate::fee::{fee_split_spec, Fee, FeeCents, FEE_CENTS_DENOMINATOR};
use crate::quotes::{
    DepositSolQuote, DepositSolQuoteArgs, DepositStakeQuote, DepositStakeQuoteArgs,
    StakeAccountLamports, WithdrawStakeQuote, WithdrawStakeQuoteArgs,
};
use crate::typedefs::{LiqPool, StakeSystem, ValidatorSystem};

verus! {

/// `x` as a `u64`, or nothing when it does not fit.
pub open spec fn fit_u64(x: int) -> Option<u64> {
    if 0 <= x <= u64::MAX {
        Some(x as u64)
    } else {
        None
    }
}

/// `floor(amount * n / d)` as sanctum's floor ratio computes it: zero for
/// a zero ratio, nothing when the result exceeds `u64::MAX`.
pub open spec fn floor_ratio_spec(n: u64, d: u64, amount: u64) -> Option<u64> {
    if n == 0 || d == 0 {
        Some(0)
    } else {
        fit_u64((amount as int * n as int) / d as int)
    }
}

/// sanctum_u64_ratio's `Ratio { n, d }`; its fields are public and read as
/// they stand.
#[verifier::external_type_specification]
pub struct ExRatio<N, D>(Ratio<N, D>);

/// sanctum_u64_ratio's `Floor(ratio)`, a ratio applied rounding down.
#[verifier::external_type_specification]
pub struct ExFloor<R>(Floor<R>);

/// Relies on sanctum_u64_ratio's `Floor::<Ratio<u64, u64>>::apply`:
/// `floor(amount * n / d)`, `Some(0)` when `n` or `d` is zero, and `None`
/// when the result exceeds `u64::MAX`.
pub assume_specification[ Floor::<Ratio<u64, u64>>::apply ](
    ratio: &Floor<Ratio<u64, u64>>,
    amount: u64,
) -> (r: Option<u64>)
    ensures
        r == floor_ratio_spec(ratio.0.n, ratio.0.d, amount),
;

/// A snapshot of the pool's state account.
#[derive(Debug, Clone, Copy, PartialEq, Eq, Default)]
pub struct State {
    /// Tag that marks the account as a pool state.
    pub discriminator: [u8; 8],
    pub msol_mint: [u8; 32],
    pub admin_authority: [u8; 32],
    /// Where rent reserve lamports are withdrawn to.
    pub operational_sol_account: [u8; 32],
    pub treasury_msol_account: [u8; 32],
    pub reserve_bump_seed: u8,
    pub msol_mint_authority_bump_seed: u8,
    pub rent_exempt_for_token_acc: u64,
    /// Fee levied on rewards.
    pub reward_fee: Fee,
    pub stake_system: StakeSystem,
    pub validator_system: ValidatorSystem,
    pub liq_pool: LiqPool,
    pub available_reserve_balance: u64,
    pub msol_supply: u64,
    /// For display only; never used to compute amounts.
    pub msol_price: u64,
    /// Number of delayed-unstake tickets not yet claimed.
    pub circulating_ticket_count: u64,
    /// Lamports owed to delayed-unstake tickets not yet claimed.
    pub circulating_ticket_balance: u64,
    pub lent_from_reserve: u64,
    pub min_deposit: u64,
    pub min_withdraw: u64,
    pub staking_sol_cap: u64,
    pub emergency_cooling_down: u64,
    pub pause_authority: [u8; 32],
    pub paused: bool,
    pub delayed_unstake_fee: FeeCents,
    pub withdraw_stake_account_fee: FeeCents,
    pub withdraw_stake_account_enabled: bool,
    /// Epoch of the last stake move.
    pub last_stake_move_epoch: u64,
    /// Lamports moved during that epoch.
    pub stake_moved: u64,
    pub max_stake_moved_per_epoch: Fee,
}

impl State {
    pub open spec fn spec_total_cooling_down(&self) -> int {
        self.stake_system.delayed_unstake_cooling_down + self.emergency_cooling_down
    }

    pub open spec fn spec_total_lamports_under_control(&self) -> int {
        self.validator_system.total_active_balance + self.spec_total_cooling_down()
            + self.available_reserve_balance
    }

    /// The lamports under control fit in a `u64`; a state where they do not
    /// is corrupt and cannot be quoted against.
    pub open spec fn spec_accounting_fits(&self) -> bool {
        self.spec_total_lamports_under_control() <= u64::MAX
    }

    /// Lamports under control less those owed to tickets, floored at zero.
    pub open spec fn spec_total_virtual_staked_lamports(&self) -> int {
        if self.spec_total_lamports_under_control() >= self.circulating_ticket_balance {
            self.spec_total_lamports_under_control() - self.circulating_ticket_balance
        } else {
            0
        }
    }

    /// Lamports to staked tokens at `supply / virtual staked lamports`,
    /// rounded down; one to one while nothing has been minted.
    pub open spec fn spec_lamports_to_pool_tokens(&self, lamports: u64) -> Option<u64> {
        if self.msol_supply == 0 {
            Some(lamports)
        } else if self.spec_total_virtual_staked_lamports() == 0 {
            None
        } else {
            fit_u64(
                (lamports as int * self.msol_supply as int)
                    / self.spec_total_virtual_staked_lamports(),
            )
        }
    }

    /// Staked tokens to lamports at `virtual staked lamports / supply`,
    /// rounded down; one to one while nothing has been minted.
    pub open spec fn spec_pool_tokens_to_lamports(&self, pool_tokens: u64) -> Option<u64> {
        if self.msol_supply == 0 {
            Some(pool_tokens)
        } else {
            fit_u64(
                (pool_tokens as int * self.spec_total_virtual_staked_lamports())
                    / self.msol_supply as int,
            )
        }
    }

    /// Whether a deposit of `lamports` pushes the lamports under control past
    /// the staking cap. The part of the deposit that the liquidity pool's
    /// `msol_leg_balance` absorbs by a swap is not staked and does not count.
    pub open spec fn spec_will_deposit_exceed_staking_cap(
        &self,
        lamports: u64,
        msol_leg_balance: u64,
    ) -> Result<bool, MarinadeError> {
        match self.spec_lamports_to_pool_tokens(lamports) {
            None => Err(MarinadeError::CalculationFailure),
            Some(msol_buy_order) => {
                let msol_swapped = if msol_buy_order <= msol_leg_balance {
                    msol_buy_order
                } else {
                    msol_leg_balance
                };
                let sol_swapped = if msol_swapped == 0 {
                    Some(0u64)
                } else if msol_buy_order == msol_swapped {
                    Some(lamports)
                } else {
                    self.spec_pool_tokens_to_lamports(msol_swapped)
                };
                match sol_swapped {
                    None => Err(MarinadeError::CalculationFailure),
                    Some(sol_swapped) => {
                        if lamports <= sol_swapped {
                            Ok(false)
                        } else {
                            let result_amount = self.spec_total_lamports_under_control() + (
                            lamports - sol_swapped);
                            Ok(result_amount > self.staking_sol_cap)
                        }
                    },
                }
            },
        }
    }

    pub open spec fn spec_quote_deposit_sol_unchecked(&self, lamports: u64) -> Option<
        DepositSolQuote,
    > {
        if self.msol_supply == 0 {
            Some(DepositSolQuote { in_amount: lamports, out_amount: lamports })
        } else {
            match self.spec_lamports_to_pool_tokens(lamports) {
                None => None,
                Some(out_amount) => Some(DepositSolQuote { in_amount: lamports, out_amount }),
            }
        }
    }

    pub open spec fn spec_quote_deposit_sol(&self, lamports: u64, args: DepositSolQuoteArgs) -> Result<
        DepositSolQuote,
        MarinadeError,
    > {
        if self.paused {
            Err(MarinadeError::ProgramIsPaused)
        } else if lamports < self.min_deposit {
            Err(MarinadeError::DepositAmountIsTooLow)
        } else {
            match self.spec_will_deposit_exceed_staking_cap(lamports, args.msol_leg_balance) {
                Err(e) => Err(e),
                Ok(true) => Err(MarinadeError::StakingIsCapped),
                Ok(false) => match self.spec_quote_deposit_sol_unchecked(lamports) {
                    None => Err(MarinadeError::CalculationFailure),
                    Some(q) => Ok(q),
                },
            }
        }
    }

    pub open spec fn spec_quote_deposit_stake_unchecked(
        &self,
        stake_account_lamports: StakeAccountLamports,
    ) -> Option<DepositStakeQuote> {
        match (
            self.spec_lamports_to_pool_tokens(stake_account_lamports.spec_total() as u64),
            self.spec_lamports_to_pool_tokens(stake_account_lamports.staked),
        ) {
            (Some(from_total), Some(from_stake)) => if from_stake > from_total {
                None
            } else {
                Some(
                    DepositStakeQuote {
                        stake_account_lamports_in: stake_account_lamports,
                        tokens_out: from_stake,
                    },
                )
            },
            _ => None,
        }
    }

    pub open spec fn spec_quote_deposit_stake(
        &self,
        stake_account_lamports: StakeAccountLamports,
        args: DepositStakeQuoteArgs,
    ) -> Result<DepositStakeQuote, MarinadeError> {
        if self.paused {
            Err(MarinadeError::ProgramIsPaused)
        } else if stake_account_lamports.staked < self.stake_system.min_stake {
            Err(MarinadeError::TooLowDelegationInDepositingStake)
        } else {
            match self.spec_will_deposit_exceed_staking_cap(
                stake_account_lamports.staked,
                args.msol_leg_balance,
            ) {
                Err(e) => Err(e),
                Ok(true) => Err(MarinadeError::StakingIsCapped),
                Ok(false) => match self.spec_quote_deposit_stake_unchecked(stake_account_lamports) {
                    None => Err(MarinadeError::CalculationFailure),
                    Some(q) => Ok(q),
                },
            }
        }
    }

    /// Converts `pool_tokens` to lamports, levies the withdraw fee on them,
    /// and prices the fee back in tokens.
    pub open spec fn spec_quote_withdraw_stake_unchecked(&self, pool_tokens: u64) -> Option<
        WithdrawStakeQuote,
    > {
        match self.spec_pool_tokens_to_lamports(pool_tokens) {
            None => None,
            Some(total_lamports) => match fee_split_spec(
                total_lamports,
                self.withdraw_stake_account_fee.bp_cents as int,
                FEE_CENTS_DENOMINATOR as int,
            ) {
                None => None,
                Some(split) => match self.spec_lamports_to_pool_tokens(split.rem) {
                    None => None,
                    Some(rem_tokens) => Some(
                        WithdrawStakeQuote {
                            tokens_in: pool_tokens,
                            lamports_staked: split.rem,
                            fee_amount: if pool_tokens >= rem_tokens {
                                (pool_tokens - rem_tokens) as u64
                            } else {
                                0
                            },
                        },
                    ),
                },
            },
        }
    }

    pub open spec fn spec_quote_withdraw_stake(
        &self,
        pool_tokens: u64,
        args: WithdrawStakeQuoteArgs,
    ) -> Result<WithdrawStakeQuote, MarinadeError> {
        let delegated = args.stake_record.spec_last_update_delegated_lamports();
        if self.paused {
            Err(MarinadeError::ProgramIsPaused)
        } else if !self.withdraw_stake_account_enabled {
            Err(MarinadeError::WithdrawStakeAccountIsNotEnabled)
        } else if args.stake_record.spec_is_emergency_unstaking() {
            Err(MarinadeError::StakeAccountIsEmergencyUnstaking)
        } else {
            match self.spec_quote_withdraw_stake_unchecked(pool_tokens) {
                None => Err(MarinadeError::CalculationFailure),
                Some(q) => if q.lamports_staked < self.stake_system.min_stake {
                    Err(MarinadeError::WithdrawStakeLamportsIsTooLow)
                } else if delegated < q.lamports_staked {
                    Err(MarinadeError::SelectedStakeAccountHasNotEnoughFunds)
                } else if delegated - q.lamports_staked != 0 && delegated - q.lamports_staked
                    < self.stake_system.min_stake {
                    Err(MarinadeError::StakeAccountRemainderTooLow)
                } else {
                    Ok(q)
                },
            }
        }
    }
}

impl State {
    /// Whether the lamports under control fit in a `u64`; every quote needs it.
    pub fn accounting_fits(&self) -> (r: bool)
        ensures
            r == self.spec_accounting_fits(),
    {
        match self.stake_system.delayed_unstake_cooling_down.checked_add(
            self.emergency_cooling_down,
        ) {
            None => false,
            Some(cooling) => match self.validator_system.total_active_balance.checked_add(
                cooling,
            ) {
                None => false,
                Some(staked) => staked.checked_add(self.available_reserve_balance).is_some(),
            },
        }
    }

    pub fn total_cooling_down(&self) -> (r: u64)
        requires
            self.spec_accounting_fits(),
        ensures
            r == self.spec_total_cooling_down(),
    {
        self.stake_system.delayed_unstake_cooling_down + self.emergency_cooling_down
    }

    pub fn total_lamports_under_control(&self) -> (r: u64)
        requires
            self.spec_accounting_fits(),
        ensures
            r == self.spec_total_lamports_under_control(),
    {
        self.validator_system.total_active_balance + self.total_cooling_down()
            + self.available_reserve_balance
    }

    pub fn total_virtual_staked_lamports(&self) -> (r: u64)
        requires
            self.spec_accounting_fits(),
        ensures
            r == self.spec_total_virtual_staked_lamports(),
    {
        self.total_lamports_under_control().saturating_sub(self.circulating_ticket_balance)
    }

    /// The lamports-to-tokens rate, `supply / virtual staked lamports`.
    pub fn supply_over_lamports(&self) -> (r: Floor<Ratio<u64, u64>>)
        requires
            self.spec_accounting_fits(),
        ensures
            r.0.n == self.msol_supply,
            r.0.d == self.spec_total_virtual_staked_lamports(),
    {
        Floor(Ratio { n: self.msol_supply, d: self.total_virtual_staked_lamports() })
    }

    /// The tokens-to-lamports rate, `virtual staked lamports / supply`.
    pub fn lamports_over_supply(&self) -> (r: Floor<Ratio<u64, u64>>)
        requires
            self.spec_accounting_fits(),
        ensures
            r.0.n == self.spec_total_virtual_staked_lamports(),
            r.0.d == self.msol_supply,
    {
        Floor(Ratio { n: self.total_virtual_staked_lamports(), d: self.msol_supply })
    }

    pub fn lamports_to_pool_tokens(&self, lamports: u64) -> (r: Option<u64>)
        requires
            self.spec_accounting_fits(),
        ensures
            r == self.spec_lamports_to_pool_tokens(lamports),
    {
        if self.msol_supply == 0 {
            return Some(lamports);
        }
        let ratio = self.supply_over_lamports();
        if ratio.0.d == 0 {
            return None;
        }
        ratio.apply(lamports)
    }

    pub fn pool_tokens_to_lamports(&self, pool_tokens: u64) -> (r: Option<u64>)
        requires
            self.spec_accounting_fits(),
        ensures
            r == self.spec_pool_tokens_to_lamports(pool_tokens),
    {
        if self.msol_supply == 0 {
            return Some(pool_tokens);
        }
        let ratio = self.lamports_over_supply();
        proof {
            if ratio.0.n == 0 {
                assert((pool_tokens as int * ratio.0.n as int) == 0);
            }
        }
        ratio.apply(pool_tokens)
    }

    pub fn is_sol_deposit_too_low(&self, lamports: u64) -> (r: bool)
        ensures
            r == (lamports < self.min_deposit),
    {
        lamports < self.min_deposit
    }

    pub fn is_stake_deposit_too_low(&self, stake_lamports: u64) -> (r: bool)
        ensures
            r == (stake_lamports < self.stake_system.min_stake),
    {
        stake_lamports < self.stake_system.min_stake
    }

    pub fn will_deposit_exceed_staking_cap(&self, lamports: u64, msol_leg_balance: u64) -> (r:
        Result<bool, MarinadeError>)
        requires
            self.spec_accounting_fits(),
        ensures
            r == self.spec_will_deposit_exceed_staking_cap(lamports, msol_leg_balance),
    {
        let msol_buy_order = match self.lamports_to_pool_tokens(lamports) {
            None => return Err(MarinadeError::CalculationFailure),
            Some(t) => t,
        };
        let msol_swapped = if msol_buy_order <= msol_leg_balance {
            msol_buy_order
        } else {
            msol_leg_balance
        };
        let sol_swapped = if msol_swapped > 0 {
            if msol_buy_order == msol_swapped {
                lamports
            } else {
                match self.pool_tokens_to_lamports(msol_swapped) {
                    None => return Err(MarinadeError::CalculationFailure),
                    Some(l) => l,
                }
            }
        } else {
            0
        };
        let sol_deposited = lamports.saturating_sub(sol_swapped);
        if sol_deposited == 0 {
            return Ok(false);
        }
        let under_control = self.total_lamports_under_control();
        match under_control.checked_add(sol_deposited) {
            None => Ok(true),
            Some(result_amount) => Ok(result_amount > self.staking_sol_cap),
        }
    }

    pub fn quote_deposit_sol_unchecked(&self, lamports: u64) -> (r: Option<DepositSolQuote>)
        requires
            self.spec_accounting_fits(),
        ensures
            r == self.spec_quote_deposit_sol_unchecked(lamports),
    {
        let out_amount = if self.msol_supply == 0 {
            lamports
        } else {
            match self.lamports_to_pool_tokens(lamports) {
                None => return None,
                Some(t) => t,
            }
        };
        Some(DepositSolQuote { in_amount: lamports, out_amount })
    }

    /// Quotes a deposit of `lamports`. Checks, in order: the pool is not
    /// paused, the deposit reaches the minimum, the staking cap holds.
    pub fn quote_deposit_sol(&self, lamports: u64, args: DepositSolQuoteArgs) -> (r: Result<
        DepositSolQuote,
        MarinadeError,
    >)
        requires
            self.spec_accounting_fits(),
        ensures
            r == self.spec_quote_deposit_sol(lamports, args),
    {
        if self.paused {
            return Err(MarinadeError::ProgramIsPaused);
        }
        if self.is_sol_deposit_too_low(lamports) {
            return Err(MarinadeError::DepositAmountIsTooLow);
        }
        match self.will_deposit_exceed_staking_cap(lamports, args.msol_leg_balance) {
            Err(e) => return Err(e),
            Ok(true) => return Err(MarinadeError::StakingIsCapped),
            Ok(false) => {},
        }
        match self.quote_deposit_sol_unchecked(lamports) {
            None => Err(MarinadeError::CalculationFailure),
            Some(q) => Ok(q),
        }
    }

    pub fn quote_deposit_stake_unchecked(&self, stake_account_lamports: StakeAccountLamports) -> (r:
        Option<DepositStakeQuote>)
        requires
            self.spec_accounting_fits(),
            stake_account_lamports.spec_total() <= u64::MAX,
        ensures
            r == self.spec_quote_deposit_stake_unchecked(stake_account_lamports),
    {
        let new_pool_tokens = match self.lamports_to_pool_tokens(stake_account_lamports.total()) {
            None => return None,
            Some(t) => t,
        };
        let new_pool_tokens_from_stake = match self.lamports_to_pool_tokens(
            stake_account_lamports.staked,
        ) {
            None => return None,
            Some(t) => t,
        };
        if new_pool_tokens_from_stake > new_pool_tokens {
            return None;
        }
        Some(
            DepositStakeQuote {
                stake_account_lamports_in: stake_account_lamports,
                tokens_out: new_pool_tokens_from_stake,
            },
        )
    }

    /// Quotes the deposit of a stake account. Checks, in order: the pool is
    /// not paused, the delegation reaches the minimum stake, the staking cap
    /// holds for the delegated lamports.
    pub fn quote_deposit_stake(
        &self,
        stake_account_lamports: StakeAccountLamports,
        args: DepositStakeQuoteArgs,
    ) -> (r: Result<DepositStakeQuote, MarinadeError>)
        requires
            self.spec_accounting_fits(),
            stake_account_lamports.spec_total() <= u64::MAX,
        ensures
            r == self.spec_quote_deposit_stake(stake_account_lamports, args),
    {
        if self.paused {
            return Err(MarinadeError::ProgramIsPaused);
        }
        if self.is_stake_deposit_too_low(stake_account_lamports.staked) {
            return Err(MarinadeError::TooLowDelegationInDepositingStake);
        }
        match self.will_deposit_exceed_staking_cap(
            stake_account_lamports.staked,
            args.msol_leg_balance,
        ) {
            Err(e) => return Err(e),
            Ok(true) => return Err(MarinadeError::StakingIsCapped),
            Ok(false) => {},
        }
        match self.quote_deposit_stake_unchecked(stake_account_lamports) {
            None => Err(MarinadeError::CalculationFailure),
            Some(q) => Ok(q),
        }
    }

    pub fn quote_withdraw_stake_unchecked(&self, pool_tokens: u64) -> (r: Option<
        WithdrawStakeQuote,
    >)
        requires
            self.spec_accounting_fits(),
        ensures
            r == self.spec_quote_withdraw_stake_unchecked(pool_tokens),
    {
        let total_lamports = match self.pool_tokens_to_lamports(pool_tokens) {
            None => return None,
            Some(l) => l,
        };
        let split = match self.withdraw_stake_account_fee.apply(total_lamports) {
            None => return None,
            Some(s) => s,
        };
        let split_lamports = split.rem;
        let rem_tokens = match self.lamports_to_pool_tokens(split_lamports) {
            None => return None,
            Some(t) => t,
        };
        Some(
            WithdrawStakeQuote {
                tokens_in: pool_tokens,
                lamports_staked: split_lamports,
                fee_amount: pool_tokens.saturating_sub(rem_tokens),
            },
        )
    }

    /// Quotes splitting `pool_tokens` worth of stake off the stake account
    /// that `args` names. Checks, in order: the pool is not paused, the
    /// withdrawal is enabled, the account is not emergency unstaking, the
    /// amounts compute, the split reaches the minimum stake, the account holds
    /// enough, and what stays behind is either nothing or the minimum stake.
    pub fn quote_withdraw_stake(&self, pool_tokens: u64, args: WithdrawStakeQuoteArgs) -> (r:
        Result<WithdrawStakeQuote, MarinadeError>)
        requires
            self.spec_accounting_fits(),
        ensures
            r == self.spec_quote_withdraw_stake(pool_tokens, args),
    {
        if self.paused {
            return Err(MarinadeError::ProgramIsPaused);
        }
        if !self.withdraw_stake_account_enabled {
            return Err(MarinadeError::WithdrawStakeAccountIsNotEnabled);
        }
        if args.stake_record.is_emergency_unstaking() {
            return Err(MarinadeError::StakeAccountIsEmergencyUnstaking);
        }
        let quote = match self.quote_withdraw_stake_unchecked(pool_tokens) {
            None => return Err(MarinadeError::CalculationFailure),
            Some(q) => q,
        };
        if quote.lamports_staked < self.stake_system.min_stake {
            return Err(MarinadeError::WithdrawStakeLamportsIsTooLow);
        }
        let delegated = args.stake_record.last_update_delegated_lamports();
        if delegated < quote.lamports_staked {
            return Err(MarinadeError::SelectedStakeAccountHasNotEnoughFunds);
        }
        let remainder_stake = delegated - quote.lamports_staked;
        if remainder_stake != 0 && remainder_stake < self.stake_system.min_stake {
            return Err(MarinadeError::StakeAccountRemainderTooLow);
        }
        Ok(quote)
    }
}

} // verus!
