use const_crypto::bs58;
use const_crypto::ed25519::derive_program_address;
use sanctum_marinade_liquid_staking_core::{
    duplication_flag_seeds, liq_pool_msol_leg_authority_seeds, liq_pool_sol_leg_seeds,
    msol_mint_authority_seeds, reserve_seeds, stake_deposit_authority_seeds,
    stake_withdraw_authority_seeds, DepositIxData, DepositIxKeysOwned,
    DepositStakeAccountIxData, DepositStakeAccountIxKeysOwned, MainnetAddresses, State,
    WithdrawStakeAccountIxData, WithdrawStakeAccountIxKeysOwned, ASSOCIATED_TOKEN_PROGRAM,
    DEPOSIT_IX_PREFIX_IS_SIGNER, DEPOSIT_IX_PREFIX_IS_WRITER, LIQ_POOL_MSOL_LEG_PUBKEY,
    MARINADE_STAKING_PROGRAM, MSOL_MINT_ADDR, STAKE_LIST_PUBKEY, STAKE_PROGRAM, STATE_PUBKEY,
    SYSTEM_PROGRAM, SYSVAR_CLOCK, SYSVAR_RENT, SYSVAR_STAKE_CONFIG, SYSVAR_STAKE_HISTORY,
    TOKEN_PROGRAM, VALIDATOR_LIST_PUBKEY, WITHDRAW_STAKE_ACCOUNT_IX_PREFIX_IS_SIGNER,
};

#[test]
fn address_constants_decode_their_base58_text() {
    let cases: [(&[u8; 32], &str); 14] = [
        (&SYSVAR_RENT, "SysvarRent111111111111111111111111111111111"),
        (&SYSVAR_STAKE_HISTORY, "SysvarStakeHistory1111111111111111111111111"),
        (&SYSVAR_CLOCK, "SysvarC1ock11111111111111111111111111111111"),
        (&STAKE_PROGRAM, "Stake11111111111111111111111111111111111111"),
        (&SYSVAR_STAKE_CONFIG, "StakeConfig11111111111111111111111111111111"),
        (&SYSTEM_PROGRAM, "11111111111111111111111111111111"),
        (&TOKEN_PROGRAM, "TokenkegQfeZyiNwAJbNbGKPFXCWuBvf9Ss623VQ5DA"),
        (&ASSOCIATED_TOKEN_PROGRAM, "ATokenGPvbdGVxr1b2hvZbsiqW5xWH25efTNsLJA8knL"),
        (&MARINADE_STAKING_PROGRAM, "MarBmsSgKXdrN1egZf5sqe1TMai9K1rChYNDJgjq7aD"),
        (&MSOL_MINT_ADDR, "mSoLzYCxHdYgdzU16g5QSh3i5K3z3KZK7ytfqcJm7So"),
        (&STATE_PUBKEY, "8szGkuLTAux9XMgZ2vtY39jVSowEcpBfFfD8hXSEqdGC"),
        (&VALIDATOR_LIST_PUBKEY, "DwFYJNnhLmw19FBTrVaLWZ8SZJpxdPoSYVSJaio9tjbY"),
        (&STAKE_LIST_PUBKEY, "Anv3XE7e5saNdm16MU6bniYS59Mpv7DzQXHAhxJUmAKW"),
        (&LIQ_POOL_MSOL_LEG_PUBKEY, "7GgPYjS5Dza89wV6FpZ23kUJRG5vbQ1GM25ezspYFSoE"),
    ];
    for (bytes, text) in cases {
        assert_eq!(*bytes, bs58::decode_pubkey(text), "{}", text);
    }
}

#[test]
fn seeds_pair_the_state_with_their_tag() {
    let state = [5u8; 32];
    assert_eq!(reserve_seeds(&state), (&state, b"reserve"));
    assert_eq!(liq_pool_sol_leg_seeds(&state), (&state, b"liq_sol"));
    assert_eq!(liq_pool_msol_leg_authority_seeds(&state), (&state, b"liq_st_sol_authority"));
    assert_eq!(msol_mint_authority_seeds(&state), (&state, b"st_mint"));
    assert_eq!(stake_withdraw_authority_seeds(&state), (&state, b"withdraw"));
    assert_eq!(stake_deposit_authority_seeds(&state), (&state, b"deposit"));
    let validator = [6u8; 32];
    assert_eq!(
        duplication_flag_seeds(&state, &validator),
        (&state, b"unique_validator", &validator)
    );
}

#[test]
fn mainnet_addresses_are_derived_from_the_state() {
    let a = MainnetAddresses::derive();
    let pda = |seed: &[u8]| derive_program_address(&[&STATE_PUBKEY, seed], &MARINADE_STAKING_PROGRAM);
    assert_eq!((a.reserve, a.reserve_bump), pda(b"reserve"));
    assert_eq!((a.liq_pool_sol_leg, a.liq_pool_sol_leg_bump), pda(b"liq_sol"));
    assert_eq!(
        (a.liq_pool_msol_leg_authority, a.liq_pool_msol_leg_authority_bump),
        pda(b"liq_st_sol_authority")
    );
    assert_eq!((a.msol_mint_authority, a.msol_mint_authority_bump), pda(b"st_mint"));
    assert_eq!((a.stake_withdraw_authority, a.stake_withdraw_authority_bump), pda(b"withdraw"));
    assert_eq!((a.stake_deposit_authority, a.stake_deposit_authority_bump), pda(b"deposit"));
    assert_ne!(a.reserve, STATE_PUBKEY);
    assert_ne!(a.reserve, a.msol_mint_authority);
}

#[test]
fn deposit_data_is_tag_then_lamports() {
    let buf = DepositIxData::new(1_000_000_000).to_buf();
    let mut expected = vec![242, 35, 198, 137, 82, 225, 242, 182];
    expected.extend_from_slice(&1_000_000_000u64.to_le_bytes());
    assert_eq!(buf.to_vec(), expected);
}

#[test]
fn deposit_stake_account_data_is_tag_then_index() {
    let buf = DepositStakeAccountIxData::new(17).to_buf();
    assert_eq!(buf, [110, 130, 115, 41, 164, 102, 2, 59, 17, 0, 0, 0]);
}

#[test]
fn withdraw_stake_account_data_layout() {
    let beneficiary = [0xAB; 32];
    let buf = WithdrawStakeAccountIxData::new(10, 589, 2_000_000_000, beneficiary).to_buf();
    assert_eq!(&buf[0..8], &[211, 85, 184, 65, 183, 177, 233, 217]);
    assert_eq!(&buf[8..12], &10u32.to_le_bytes());
    assert_eq!(&buf[12..16], &589u32.to_le_bytes());
    assert_eq!(&buf[16..24], &2_000_000_000u64.to_le_bytes());
    assert_eq!(&buf[24..56], &beneficiary);
    assert_eq!(WithdrawStakeAccountIxData::default().to_buf(), [0u8; 56]);
}

fn pool() -> State {
    let mut s = State::default();
    s.msol_mint = MSOL_MINT_ADDR;
    s.liq_pool.msol_leg = LIQ_POOL_MSOL_LEG_PUBKEY;
    s.validator_system.validator_list.account = VALIDATOR_LIST_PUBKEY;
    s.stake_system.stake_list.account = STAKE_LIST_PUBKEY;
    s.treasury_msol_account = [4; 32];
    s
}

#[test]
fn deposit_keys_fill_from_pool_and_consts() {
    let user = [9u8; 32];
    let keys = DepositIxKeysOwned::default()
        .with_consts()
        .with_keys_from_stake_pool(&pool())
        .with_transfer_from(user);
    let k = keys.0;
    assert_eq!(k[0], [0; 32]);
    assert_eq!(k[1], MSOL_MINT_ADDR);
    assert_eq!(k[3], LIQ_POOL_MSOL_LEG_PUBKEY);
    assert_eq!(k[6], user);
    assert_eq!(k[9], SYSTEM_PROGRAM);
    assert_eq!(k[10], TOKEN_PROGRAM);
    assert!(DEPOSIT_IX_PREFIX_IS_SIGNER[6]);
    assert!(DEPOSIT_IX_PREFIX_IS_WRITER[6]);
    assert!(!DEPOSIT_IX_PREFIX_IS_WRITER[9]);
    let borrowed = keys.as_borrowed();
    assert_eq!(borrowed.0[6], &user);
    assert_eq!(borrowed.into_owned(), keys);
}

#[test]
fn deposit_stake_account_keys_fill_mainnet_accounts() {
    let addrs = MainnetAddresses::derive();
    let keys = DepositStakeAccountIxKeysOwned::default()
        .with_consts()
        .with_mainnet_consts(&addrs)
        .with_keys_from_stake_pool(&pool())
        .with_stake_account([1; 32]);
    let k = keys.0;
    assert_eq!(k[0], STATE_PUBKEY);
    assert_eq!(k[1], VALIDATOR_LIST_PUBKEY);
    assert_eq!(k[2], STAKE_LIST_PUBKEY);
    assert_eq!(k[3], [1; 32]);
    assert_eq!(k[7], MSOL_MINT_ADDR);
    assert_eq!(k[9], addrs.msol_mint_authority);
    assert_eq!(k[10], SYSVAR_CLOCK);
    assert_eq!(k[11], SYSVAR_RENT);
    assert_eq!(k[14], STAKE_PROGRAM);
}

#[test]
fn withdraw_stake_account_keys_fill_mainnet_accounts() {
    let addrs = MainnetAddresses::derive();
    let user = [8u8; 32];
    let keys = WithdrawStakeAccountIxKeysOwned::default()
        .with_consts()
        .with_mainnet_consts(&addrs)
        .with_keys_from_stake_pool(&pool())
        .with_burn_msol_authority(user)
        .with_split_stake_rent_payer(user);
    let k = keys.0;
    assert_eq!(k[0], STATE_PUBKEY);
    assert_eq!(k[1], MSOL_MINT_ADDR);
    assert_eq!(k[3], user);
    assert_eq!(k[4], [4; 32]);
    assert_eq!(k[7], addrs.stake_withdraw_authority);
    assert_eq!(k[8], addrs.stake_deposit_authority);
    assert_eq!(k[11], user);
    assert_eq!(k[12], SYSVAR_CLOCK);
    assert_eq!(k[13], SYSTEM_PROGRAM);
    assert!(WITHDRAW_STAKE_ACCOUNT_IX_PREFIX_IS_SIGNER[3]);
    assert!(!WITHDRAW_STAKE_ACCOUNT_IX_PREFIX_IS_SIGNER[0]);
}
