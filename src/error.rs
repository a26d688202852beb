use vstd::prelude::*;

verus! {

/// Why a quote was refused.
#[derive(Debug, Clone, Copy, PartialEq, Eq, Structural, PartialOrd, Ord, Hash)]
pub enum MarinadeError {
    DepositAmountIsTooLow,
    ProgramIsPaused,
    StakingIsCapped,
    CalculationFailure,
    TooLowDelegationInDepositingStake,
    WithdrawStakeAccountIsNotEnabled,
    StakeAccountIsEmergencyUnstaking,
    WithdrawStakeLamportsIsTooLow,
    SelectedStakeAccountHasNotEnoughFunds,
    StakeAccountRemainderTooLow,
}

} // verus!
