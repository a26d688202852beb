use vstd::prelude::*;

use crate::error::MarinadeError;
use crate::fee::{fee_split_spec, lemma_floor_fee_bounded};
use crate::quotes::{
    DepositSolQuote, DepositSolQuoteArgs, DepositStakeQuoteArgs, StakeAccountLamports,
    WithdrawStakeQuoteArgs,
};
use crate::state::State;

verus! {

/// Levying a fee of at most one whole never takes more than the amount, and
/// the fee and the rest add up to the amount exactly.
pub proof fn lemma_fee_split_conserves(amount: u64, n: int, d: int)
    requires
        0 <= n <= d,
        d > 0,
    ensures
        fee_split_spec(amount, n, d) matches Some(s) && s.fee <= amount && s.fee + s.rem
            == amount,
{
    lemma_floor_fee_bounded(amount, n, d);
}

/// A deposit that passes the pause, minimum and cap checks is quoted one to
/// one while nothing has been minted, and for at most its lamports while the
/// supply does not exceed the virtual staked lamports. (Beyond that a lamport
/// buys more than one token: with supply 2_000_000 over 1_000_000 lamports,
/// 500 lamports buy 1_000 tokens.)
pub proof fn lemma_deposit_sol_out_amount(s: State, lamports: u64, args: DepositSolQuoteArgs)
    requires
        s.spec_accounting_fits(),
        !s.paused,
        lamports >= s.min_deposit,
        s.spec_will_deposit_exceed_staking_cap(lamports, args.msol_leg_balance) == Ok::<
            bool,
            MarinadeError,
        >(false),
    ensures
        s.msol_supply == 0 ==> s.spec_quote_deposit_sol(lamports, args) == Ok::<
            DepositSolQuote,
            MarinadeError,
        >(DepositSolQuote { in_amount: lamports, out_amount: lamports }),
        0 < s.msol_supply <= s.spec_total_virtual_staked_lamports() ==> (s.spec_quote_deposit_sol(
            lamports,
            args,
        ) matches Ok(q) && q.in_amount == lamports && q.out_amount <= lamports),
{
    if 0 < s.msol_supply <= s.spec_total_virtual_staked_lamports() {
        lemma_floor_fee_bounded(
            lamports,
            s.msol_supply as int,
            s.spec_total_virtual_staked_lamports(),
        );
    }
}

/// Every quote depends on the state and the request alone: the same inputs
/// give the same result.
pub proof fn lemma_quotes_deterministic(
    s1: State,
    s2: State,
    lamports: u64,
    sol_args: DepositSolQuoteArgs,
    stake_lamports: StakeAccountLamports,
    stake_args: DepositStakeQuoteArgs,
    pool_tokens: u64,
    withdraw_args: WithdrawStakeQuoteArgs,
)
    requires
        s1 == s2,
    ensures
        s1.spec_quote_deposit_sol(lamports, sol_args) == s2.spec_quote_deposit_sol(
            lamports,
            sol_args,
        ),
        s1.spec_quote_deposit_stake(stake_lamports, stake_args) == s2.spec_quote_deposit_stake(
            stake_lamports,
            stake_args,
        ),
        s1.spec_quote_withdraw_stake(pool_tokens, withdraw_args) == s2.spec_quote_withdraw_stake(
            pool_tokens,
            withdraw_args,
        ),
{
}

/// With nothing in the liquidity pool to swap against, a deposit that passes
/// the pause and minimum checks fails with `StakingIsCapped` exactly when it
/// takes the lamports under control past the cap; one that lands on the cap
/// is quoted.
pub proof fn lemma_staking_cap(s: State, lamports: u64)
    requires
        s.spec_accounting_fits(),
        !s.paused,
        lamports >= s.min_deposit,
        lamports > 0,
        s.spec_lamports_to_pool_tokens(lamports) is Some,
    ensures
        ({
            let r = s.spec_quote_deposit_sol(lamports, DepositSolQuoteArgs { msol_leg_balance: 0 });
            &&& s.spec_total_lamports_under_control() + lamports > s.staking_sol_cap ==> r == Err::<
                DepositSolQuote,
                MarinadeError,
            >(MarinadeError::StakingIsCapped)
            &&& s.spec_total_lamports_under_control() + lamports <= s.staking_sol_cap ==> r is Ok
        }),
{
}

/// A withdrawal that passes every earlier check fails with
/// `StakeAccountRemainderTooLow` exactly when the stake it leaves behind is
/// more than nothing and less than the minimum stake; otherwise it is quoted.
pub proof fn lemma_withdraw_remainder(s: State, pool_tokens: u64, args: WithdrawStakeQuoteArgs)
    requires
        s.spec_accounting_fits(),
        !s.paused,
        s.withdraw_stake_account_enabled,
        !args.stake_record.spec_is_emergency_unstaking(),
        s.spec_quote_withdraw_stake_unchecked(pool_tokens) matches Some(q) && q.lamports_staked
            >= s.stake_system.min_stake && q.lamports_staked
            <= args.stake_record.spec_last_update_delegated_lamports(),
    ensures
        ({
            let q = s.spec_quote_withdraw_stake_unchecked(pool_tokens)->Some_0;
            let remainder = args.stake_record.spec_last_update_delegated_lamports()
                - q.lamports_staked;
            let r = s.spec_quote_withdraw_stake(pool_tokens, args);
            &&& 0 < remainder < s.stake_system.min_stake ==> r == Err::<
                crate::quotes::WithdrawStakeQuote,
                MarinadeError,
            >(MarinadeError::StakeAccountRemainderTooLow)
            &&& (remainder == 0 || remainder >= s.stake_system.min_stake) ==> r == Ok::<
                crate::quotes::WithdrawStakeQuote,
                MarinadeError,
            >(q)
        }),
{
}

} // verus!
