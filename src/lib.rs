//! Off-chain quoting and instruction encoding for a liquid-staking pool:
//! exchange rates and fees, the deposit and withdrawal quote rules, list
//! account decoding, and the accounts and data of each instruction.

mod bytes;
mod consts;
mod deposit;
mod deposit_stake_account;
mod error;
mod fee;
mod keys;
mod laws;
mod list_account;
mod pda;
mod quotes;
mod records;
mod state;
mod typedefs;
mod withdraw_stake_account;

pub use consts::{
    ASSOCIATED_TOKEN_PROGRAM, MARINADE_STAKING_PROGRAM, MSOL_MINT_ADDR, STAKE_PROGRAM,
    SYSTEM_PROGRAM, SYSVAR_CLOCK, SYSVAR_RENT, SYSVAR_STAKE_CONFIG, SYSVAR_STAKE_HISTORY,
    TOKEN_PROGRAM,
};
pub use deposit::{
    INSTRUCTION_DISCRIM_DEPOSIT, DEPOSIT_IX_ACCS_LEN, DEPOSIT_IX_ACCS_IDX_STATE,
    DEPOSIT_IX_ACCS_IDX_MSOL_MINT, DEPOSIT_IX_ACCS_IDX_LIQ_POOL_SOL_LEG_PDA,
    DEPOSIT_IX_ACCS_IDX_LIQ_POOL_MSOL_LEG, DEPOSIT_IX_ACCS_IDX_LIQ_POOL_MSOL_LEG_AUTHORITY,
    DEPOSIT_IX_ACCS_IDX_RESERVE_PDA, DEPOSIT_IX_ACCS_IDX_TRANSFER_FROM, DEPOSIT_IX_ACCS_IDX_MINT_TO,
    DEPOSIT_IX_ACCS_IDX_MSOL_MINT_AUTHORITY, DEPOSIT_IX_ACCS_IDX_SYSTEM_PROGRAM,
    DEPOSIT_IX_ACCS_IDX_TOKEN_PROGRAM, DepositIxAccs, DepositIxKeysOwned, DepositIxKeys,
    DepositIxAccsFlag, DEPOSIT_IX_PREFIX_IS_WRITER, DEPOSIT_IX_PREFIX_IS_SIGNER, DepositIxData,
};
pub use deposit_stake_account::{
    INSTRUCTION_DISCRIM_DEPOSIT_STAKE_ACCOUNT, DEPOSIT_STAKE_ACCOUNT_IX_ACCS_LEN,
    DEPOSIT_STAKE_ACCOUNT_IX_ACCS_IDX_STATE, DEPOSIT_STAKE_ACCOUNT_IX_ACCS_IDX_VALIDATOR_LIST,
    DEPOSIT_STAKE_ACCOUNT_IX_ACCS_IDX_STAKE_LIST, DEPOSIT_STAKE_ACCOUNT_IX_ACCS_IDX_STAKE_ACCOUNT,
    DEPOSIT_STAKE_ACCOUNT_IX_ACCS_IDX_STAKE_AUTHORITY,
    DEPOSIT_STAKE_ACCOUNT_IX_ACCS_IDX_DUPLICATION_FLAG,
    DEPOSIT_STAKE_ACCOUNT_IX_ACCS_IDX_RENT_PAYER, DEPOSIT_STAKE_ACCOUNT_IX_ACCS_IDX_MSOL_MINT,
    DEPOSIT_STAKE_ACCOUNT_IX_ACCS_IDX_MINT_TO,
    DEPOSIT_STAKE_ACCOUNT_IX_ACCS_IDX_MSOL_MINT_AUTHORITY, DEPOSIT_STAKE_ACCOUNT_IX_ACCS_IDX_CLOCK,
    DEPOSIT_STAKE_ACCOUNT_IX_ACCS_IDX_RENT, DEPOSIT_STAKE_ACCOUNT_IX_ACCS_IDX_SYSTEM_PROGRAM,
    DEPOSIT_STAKE_ACCOUNT_IX_ACCS_IDX_TOKEN_PROGRAM,
    DEPOSIT_STAKE_ACCOUNT_IX_ACCS_IDX_STAKE_PROGRAM, DepositStakeAccountIxAccs,
    DepositStakeAccountIxKeysOwned, DepositStakeAccountIxKeys, DepositStakeAccountIxAccsFlag,
    DEPOSIT_STAKE_ACCOUNT_IX_PREFIX_IS_WRITER, DEPOSIT_STAKE_ACCOUNT_IX_PREFIX_IS_SIGNER,
    DepositStakeAccountIxData,
};
pub use error::MarinadeError;
pub use fee::{
    bp_fee_ratio, cents_fee_ratio, fee_split_spec, floor_fee, Fee, FeeCents, FeeSplit,
    FEE_CENTS_DENOMINATOR, FEE_DENOMINATOR,
};
pub use keys::{
    STATE_PUBKEY, VALIDATOR_LIST_PUBKEY, STAKE_LIST_PUBKEY, LIQ_POOL_MSOL_LEG_PUBKEY,
    state_address_of, MainnetAddresses,
};
pub use laws::{
    lemma_deposit_sol_out_amount, lemma_fee_split_conserves, lemma_quotes_deterministic,
    lemma_staking_cap, lemma_withdraw_remainder,
};
pub use list_account::{
    encode_records, lemma_list_round_trip, list_data_is_valid, list_data_len, list_record_bytes,
    ListAccount, StakeList, ValidatorList, LIST_HEADER_LEN,
};
pub use pda::{
    duplication_flag_seeds, liq_pool_msol_leg_authority_seeds, liq_pool_sol_leg_seeds,
    msol_mint_authority_seeds, program_address_of, reserve_seeds, stake_deposit_authority_seeds,
    stake_withdraw_authority_seeds, DUPLICATION_FLAG_SEED, MSOL_LEG_AUTHORITY_SEED,
    MSOL_MINT_AUTHORITY_SEED, RESERVE_SEED, SOL_LEG_SEED, STAKE_DEPOSIT_AUTHORITY_SEED,
    STAKE_WITHDRAW_AUTHORITY_SEED,
};
pub use quotes::{
    DepositSolQuote, DepositSolQuoteArgs, DepositStakeQuote, DepositStakeQuoteArgs,
    StakeAccountLamports, WithdrawStakeQuote, WithdrawStakeQuoteArgs,
};
pub use records::{ListRecord, StakeRecord, ValidatorRecord};
pub use state::{fit_u64, floor_ratio_spec, State};
pub use typedefs::{LiqPool, List, StakeSystem, ValidatorSystem};
pub use withdraw_stake_account::{
    INSTRUCTION_DISCRIM_WITHDRAW_STAKE_ACCOUNT, WITHDRAW_STAKE_ACCOUNT_IX_ACCS_LEN,
    WITHDRAW_STAKE_ACCOUNT_IX_ACCS_IDX_STATE, WITHDRAW_STAKE_ACCOUNT_IX_ACCS_IDX_MSOL_MINT,
    WITHDRAW_STAKE_ACCOUNT_IX_ACCS_IDX_BURN_MSOL_FROM,
    WITHDRAW_STAKE_ACCOUNT_IX_ACCS_IDX_BURN_MSOL_AUTHORITY,
    WITHDRAW_STAKE_ACCOUNT_IX_ACCS_IDX_TREASURY_MSOL_ACCOUNT,
    WITHDRAW_STAKE_ACCOUNT_IX_ACCS_IDX_VALIDATOR_LIST,
    WITHDRAW_STAKE_ACCOUNT_IX_ACCS_IDX_STAKE_LIST,
    WITHDRAW_STAKE_ACCOUNT_IX_ACCS_IDX_STAKE_WITHDRAW_AUTHORITY,
    WITHDRAW_STAKE_ACCOUNT_IX_ACCS_IDX_STAKE_DEPOSIT_AUTHORITY,
    WITHDRAW_STAKE_ACCOUNT_IX_ACCS_IDX_STAKE_ACCOUNT,
    WITHDRAW_STAKE_ACCOUNT_IX_ACCS_IDX_SPLIT_STAKE_ACCOUNT,
    WITHDRAW_STAKE_ACCOUNT_IX_ACCS_IDX_SPLIT_STAKE_RENT_PAYER,
    WITHDRAW_STAKE_ACCOUNT_IX_ACCS_IDX_CLOCK, WITHDRAW_STAKE_ACCOUNT_IX_ACCS_IDX_SYSTEM_PROGRAM,
    WITHDRAW_STAKE_ACCOUNT_IX_ACCS_IDX_TOKEN_PROGRAM,
    WITHDRAW_STAKE_ACCOUNT_IX_ACCS_IDX_STAKE_PROGRAM, WithdrawStakeAccountIxAccs,
    WithdrawStakeAccountIxKeysOwned, WithdrawStakeAccountIxKeys, WithdrawStakeAccountIxAccsFlag,
    WITHDRAW_STAKE_ACCOUNT_IX_PREFIX_IS_WRITER, WITHDRAW_STAKE_ACCOUNT_IX_PREFIX_IS_SIGNER,
    WithdrawStakeAccountIxData,
};
