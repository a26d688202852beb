use sanctum_marinade_liquid_staking_core::{
    DepositSolQuote, DepositSolQuoteArgs, DepositStakeQuote, DepositStakeQuoteArgs, Fee,
    FeeCents, FeeSplit, MarinadeError, StakeAccountLamports, StakeRecord, State,
    WithdrawStakeQuote, WithdrawStakeQuoteArgs,
};

const NO_SWAP: DepositSolQuoteArgs = DepositSolQuoteArgs { msol_leg_balance: 0 };

fn open_pool() -> State {
    let mut s = State::default();
    s.staking_sol_cap = u64::MAX;
    s
}

fn stake_record(delegated: u64, emergency: bool) -> StakeRecord {
    StakeRecord {
        stake_account: [7; 32],
        last_update_delegated_lamports: delegated.to_le_bytes(),
        last_update_epoch: 600u64.to_le_bytes(),
        is_emergency_unstaking: if emergency { 1 } else { 0 },
        additional_record_space: [0; 7],
    }
}

fn withdraw_pool(min_stake: u64, fee_cents: u32) -> State {
    let mut s = open_pool();
    s.withdraw_stake_account_enabled = true;
    s.stake_system.min_stake = min_stake;
    s.withdraw_stake_account_fee = FeeCents { bp_cents: fee_cents };
    s.msol_supply = 1_000_000;
    s.validator_system.total_active_balance = 1_000_000;
    s
}

#[test]
fn bootstrap_deposit_is_one_to_one() {
    let mut s = open_pool();
    s.msol_supply = 0;
    s.min_deposit = 1;
    let q = s.quote_deposit_sol(1_000, NO_SWAP).unwrap();
    assert_eq!(q, DepositSolQuote { in_amount: 1000, out_amount: 1000 });
}

#[test]
fn deposit_at_two_tokens_per_lamport() {
    let mut s = open_pool();
    s.msol_supply = 2_000_000;
    s.validator_system.total_active_balance = 1_000_000;
    assert_eq!(s.total_virtual_staked_lamports(), 1_000_000);
    let q = s.quote_deposit_sol(500, NO_SWAP).unwrap();
    assert_eq!(q.out_amount, 1000);
    assert_eq!(q.in_amount, 500);
}

#[test]
fn one_percent_fee_cents() {
    let split = FeeCents { bp_cents: 10_000 }.apply(100_000).unwrap();
    assert_eq!(split, FeeSplit { fee: 1_000, rem: 99_000 });
}

#[test]
fn fee_rounds_down_and_conserves() {
    let split = Fee { basis_points: 3 }.apply(9_999).unwrap();
    // 9_999 * 3 / 10_000 = 2.9997
    assert_eq!(split.fee, 2);
    assert_eq!(split.rem, 9_997);
    assert_eq!(split.fee + split.rem, 9_999);
    let whole = Fee { basis_points: 10_000 }.apply(77).unwrap();
    assert_eq!(whole, FeeSplit { fee: 77, rem: 0 });
    let none = FeeCents { bp_cents: 0 }.apply(u64::MAX).unwrap();
    assert_eq!(none, FeeSplit { fee: 0, rem: u64::MAX });
}

#[test]
fn fee_over_one_is_refused() {
    assert_eq!(Fee { basis_points: 10_001 }.apply(100), None);
    assert_eq!(FeeCents { bp_cents: 1_000_001 }.apply(100), None);
}

#[test]
fn deposit_out_amount_never_exceeds_lamports_at_or_below_par() {
    let mut s = open_pool();
    s.msol_supply = 900_000;
    s.validator_system.total_active_balance = 1_000_000;
    let q = s.quote_deposit_sol(12_345, NO_SWAP).unwrap();
    // 12_345 * 900_000 / 1_000_000 = 11_110.5
    assert_eq!(q.out_amount, 11_110);
    assert!(q.out_amount <= 12_345);
}

#[test]
fn quotes_repeat_bit_for_bit() {
    let s = withdraw_pool(1_000, 5_000);
    let a = s.quote_deposit_sol(4_321, NO_SWAP);
    let b = s.quote_deposit_sol(4_321, NO_SWAP);
    assert_eq!(a, b);
    let lamports = StakeAccountLamports { staked: 5_000, unstaked: 10 };
    let args = DepositStakeQuoteArgs { msol_leg_balance: 0 };
    assert_eq!(s.quote_deposit_stake(lamports, args), s.quote_deposit_stake(lamports, args));
    let w = WithdrawStakeQuoteArgs { stake_record: stake_record(50_000, false) };
    assert_eq!(s.quote_withdraw_stake(10_000, w), s.quote_withdraw_stake(10_000, w));
}

#[test]
fn deposit_landing_on_the_cap_succeeds() {
    let mut s = open_pool();
    s.available_reserve_balance = 1_000;
    s.staking_sol_cap = 1_500;
    assert!(s.quote_deposit_sol(500, NO_SWAP).is_ok());
    assert_eq!(s.quote_deposit_sol(501, NO_SWAP), Err(MarinadeError::StakingIsCapped));
}

#[test]
fn swapped_part_of_a_deposit_does_not_count_against_the_cap() {
    let mut s = open_pool();
    s.available_reserve_balance = 1_000;
    s.staking_sol_cap = 1_000;
    // with no supply one lamport buys one token; the leg holds 400 of them
    let args = DepositSolQuoteArgs { msol_leg_balance: 400 };
    assert_eq!(s.will_deposit_exceed_staking_cap(400, 400), Ok(false));
    assert_eq!(s.will_deposit_exceed_staking_cap(401, 400), Ok(true));
    assert!(s.quote_deposit_sol(400, args).is_ok());
    assert_eq!(s.quote_deposit_sol(401, args), Err(MarinadeError::StakingIsCapped));
}

#[test]
fn paused_pool_refuses_every_quote() {
    let mut s = withdraw_pool(0, 0);
    s.paused = true;
    assert_eq!(s.quote_deposit_sol(10, NO_SWAP), Err(MarinadeError::ProgramIsPaused));
    let lamports = StakeAccountLamports { staked: 10, unstaked: 0 };
    let args = DepositStakeQuoteArgs { msol_leg_balance: 0 };
    assert_eq!(s.quote_deposit_stake(lamports, args), Err(MarinadeError::ProgramIsPaused));
    let w = WithdrawStakeQuoteArgs { stake_record: stake_record(10, false) };
    assert_eq!(s.quote_withdraw_stake(10, w), Err(MarinadeError::ProgramIsPaused));
}

#[test]
fn deposit_below_minimum_is_refused() {
    let mut s = open_pool();
    s.min_deposit = 100;
    assert!(s.is_sol_deposit_too_low(99));
    assert_eq!(s.quote_deposit_sol(99, NO_SWAP), Err(MarinadeError::DepositAmountIsTooLow));
    assert!(s.quote_deposit_sol(100, NO_SWAP).is_ok());
}

#[test]
fn deposit_with_no_virtual_stake_fails_to_compute() {
    let mut s = open_pool();
    s.msol_supply = 10;
    assert_eq!(s.lamports_to_pool_tokens(5), None);
    assert_eq!(s.quote_deposit_sol(5, NO_SWAP), Err(MarinadeError::CalculationFailure));
    assert_eq!(s.pool_tokens_to_lamports(5), Some(0));
}

#[test]
fn exchange_rates_round_down() {
    let mut s = open_pool();
    s.msol_supply = 3;
    s.validator_system.total_active_balance = 7;
    s.circulating_ticket_balance = 2;
    assert_eq!(s.total_lamports_under_control(), 7);
    assert_eq!(s.total_virtual_staked_lamports(), 5);
    assert_eq!(s.lamports_to_pool_tokens(10), Some(6));
    assert_eq!(s.pool_tokens_to_lamports(10), Some(16));
}

#[test]
fn cooling_down_counts_under_control() {
    let mut s = open_pool();
    s.validator_system.total_active_balance = 1;
    s.stake_system.delayed_unstake_cooling_down = 20;
    s.emergency_cooling_down = 300;
    s.available_reserve_balance = 4_000;
    s.circulating_ticket_balance = 10_000;
    assert!(s.accounting_fits());
    assert_eq!(s.total_cooling_down(), 320);
    assert_eq!(s.total_lamports_under_control(), 4_321);
    assert_eq!(s.total_virtual_staked_lamports(), 0);
    s.emergency_cooling_down = u64::MAX;
    assert!(!s.accounting_fits());
}

#[test]
fn stake_deposit_quotes_the_delegated_lamports() {
    let mut s = open_pool();
    s.msol_supply = 1_000;
    s.validator_system.total_active_balance = 2_000;
    s.stake_system.min_stake = 100;
    let lamports = StakeAccountLamports { staked: 1_001, unstaked: 500 };
    assert_eq!(lamports.total(), 1_501);
    let args = DepositStakeQuoteArgs { msol_leg_balance: 0 };
    let q = s.quote_deposit_stake(lamports, args).unwrap();
    assert_eq!(q, DepositStakeQuote { stake_account_lamports_in: lamports, tokens_out: 500 });
}

#[test]
fn stake_deposit_below_minimum_is_refused() {
    let mut s = open_pool();
    s.stake_system.min_stake = 100;
    assert!(s.is_stake_deposit_too_low(99));
    let lamports = StakeAccountLamports { staked: 99, unstaked: 1_000 };
    let args = DepositStakeQuoteArgs { msol_leg_balance: 0 };
    assert_eq!(
        s.quote_deposit_stake(lamports, args),
        Err(MarinadeError::TooLowDelegationInDepositingStake)
    );
}

#[test]
fn stake_deposit_past_the_cap_is_refused() {
    let mut s = open_pool();
    s.staking_sol_cap = 1_000;
    let lamports = StakeAccountLamports { staked: 1_001, unstaked: 0 };
    let args = DepositStakeQuoteArgs { msol_leg_balance: 0 };
    assert_eq!(s.quote_deposit_stake(lamports, args), Err(MarinadeError::StakingIsCapped));
}

#[test]
fn withdraw_quote_levies_the_fee_in_tokens() {
    let mut s = withdraw_pool(1_000, 10_000);
    s.msol_supply = 500_000;
    let w = WithdrawStakeQuoteArgs { stake_record: stake_record(1_000_000, false) };
    // 100_000 tokens are 200_000 lamports; 1% of them is 2_000
    let q = s.quote_withdraw_stake(100_000, w).unwrap();
    assert_eq!(q, WithdrawStakeQuote { tokens_in: 100_000, lamports_staked: 198_000, fee_amount: 1_000 });
}

#[test]
fn withdraw_disabled_is_refused() {
    let mut s = withdraw_pool(0, 0);
    s.withdraw_stake_account_enabled = false;
    let w = WithdrawStakeQuoteArgs { stake_record: stake_record(10, false) };
    assert_eq!(s.quote_withdraw_stake(10, w), Err(MarinadeError::WithdrawStakeAccountIsNotEnabled));
}

#[test]
fn withdraw_from_emergency_unstaking_account_is_refused() {
    let s = withdraw_pool(0, 0);
    let w = WithdrawStakeQuoteArgs { stake_record: stake_record(10_000, true) };
    assert_eq!(s.quote_withdraw_stake(10, w), Err(MarinadeError::StakeAccountIsEmergencyUnstaking));
}

#[test]
fn withdraw_with_malformed_fee_fails_to_compute() {
    let s = withdraw_pool(0, 1_000_001);
    let w = WithdrawStakeQuoteArgs { stake_record: stake_record(10_000, false) };
    assert_eq!(s.quote_withdraw_stake(10, w), Err(MarinadeError::CalculationFailure));
}

#[test]
fn withdraw_below_minimum_stake_is_refused() {
    let s = withdraw_pool(1_000, 0);
    let w = WithdrawStakeQuoteArgs { stake_record: stake_record(10_000, false) };
    assert_eq!(s.quote_withdraw_stake(999, w), Err(MarinadeError::WithdrawStakeLamportsIsTooLow));
}

#[test]
fn withdraw_more_than_the_account_holds_is_refused() {
    let s = withdraw_pool(1_000, 0);
    let w = WithdrawStakeQuoteArgs { stake_record: stake_record(1_500, false) };
    assert_eq!(
        s.quote_withdraw_stake(1_501, w),
        Err(MarinadeError::SelectedStakeAccountHasNotEnoughFunds)
    );
}

#[test]
fn withdraw_remainder_must_be_nothing_or_the_minimum() {
    let s = withdraw_pool(1_000, 0);
    let w = WithdrawStakeQuoteArgs { stake_record: stake_record(3_000, false) };
    assert_eq!(s.quote_withdraw_stake(2_001, w), Err(MarinadeError::StakeAccountRemainderTooLow));
    assert_eq!(s.quote_withdraw_stake(2_999, w), Err(MarinadeError::StakeAccountRemainderTooLow));
    assert_eq!(s.quote_withdraw_stake(2_000, w).unwrap().lamports_staked, 2_000);
    assert_eq!(s.quote_withdraw_stake(3_000, w).unwrap().lamports_staked, 3_000);
}

#[test]
fn fee_floor_exists_up_to_one_whole() {
    assert!(Fee { basis_points: 10_000 }.to_fee_floor().is_some());
    assert!(Fee { basis_points: 10_001 }.to_fee_floor().is_none());
    assert!(FeeCents { bp_cents: 1_000_000 }.to_fee_floor().is_some());
    assert!(FeeCents { bp_cents: 1_000_001 }.to_fee_floor().is_none());
    let floor = FeeCents { bp_cents: 10_000 }.to_fee_floor().unwrap();
    assert_eq!(floor.apply(100_000).unwrap().fee(), 1_000);
    assert_eq!(floor.as_inner_ref().0.n, 10_000);
    assert_eq!(floor.as_inner_ref().0.d, 1_000_000);
    let bp = Fee { basis_points: 25 }.to_fee_floor().unwrap();
    assert_eq!((bp.as_inner_ref().0.n, bp.as_inner_ref().0.d), (25, 10_000));
}

#[test]
fn deposit_past_the_largest_cap_is_refused() {
    let mut s = open_pool();
    s.available_reserve_balance = u64::MAX;
    assert!(s.accounting_fits());
    assert_eq!(s.will_deposit_exceed_staking_cap(1, 0), Ok(true));
    assert_eq!(s.quote_deposit_sol(1, NO_SWAP), Err(MarinadeError::StakingIsCapped));
    let lamports = StakeAccountLamports { staked: 1, unstaked: 0 };
    let args = DepositStakeQuoteArgs { msol_leg_balance: 0 };
    assert_eq!(s.quote_deposit_stake(lamports, args), Err(MarinadeError::StakingIsCapped));
    s.available_reserve_balance = u64::MAX - 1;
    assert!(s.quote_deposit_sol(1, NO_SWAP).is_ok());
}
