use vstd::prelude::*;

verus! {

// Seeds of the pool's program-derived addresses, each the bytes of the text
// above it.

/// `b"reserve"`
pub const RESERVE_SEED: [u8; 7] = [114, 101, 115, 101, 114, 118, 101];

/// `b"liq_sol"`
pub const SOL_LEG_SEED: [u8; 7] = [108, 105, 113, 95, 115, 111, 108];

/// `b"liq_st_sol_authority"`
pub const MSOL_LEG_AUTHORITY_SEED: [u8; 20] = [
    108, 105, 113, 95, 115, 116, 95, 115, 111, 108, 95, 97, 117, 116, 104, 111, 114, 105, 116, 121,
];

/// `b"st_mint"`
pub const MSOL_MINT_AUTHORITY_SEED: [u8; 7] = [115, 116, 95, 109, 105, 110, 116];

/// `b"unique_validator"`
pub const DUPLICATION_FLAG_SEED: [u8; 16] = [
    117, 110, 105, 113, 117, 101, 95, 118, 97, 108, 105, 100, 97, 116, 111, 114,
];

/// `b"withdraw"`
pub const STAKE_WITHDRAW_AUTHORITY_SEED: [u8; 8] = [119, 105, 116, 104, 100, 114, 97, 119];

/// `b"deposit"`
pub const STAKE_DEPOSIT_AUTHORITY_SEED: [u8; 7] = [100, 101, 112, 111, 115, 105, 116];

// The seeds of each address, in order: the state account, then the tag.

pub fn liq_pool_sol_leg_seeds(state: &[u8; 32]) -> (r: (&[u8; 32], &[u8; 7]))
    ensures
        *r.0 == *state,
        *r.1 == SOL_LEG_SEED,
{
    (state, &SOL_LEG_SEED)
}

pub fn liq_pool_msol_leg_authority_seeds(state: &[u8; 32]) -> (r: (&[u8; 32], &[u8; 20]))
    ensures
        *r.0 == *state,
        *r.1 == MSOL_LEG_AUTHORITY_SEED,
{
    (state, &MSOL_LEG_AUTHORITY_SEED)
}

pub fn reserve_seeds(state: &[u8; 32]) -> (r: (&[u8; 32], &[u8; 7]))
    ensures
        *r.0 == *state,
        *r.1 == RESERVE_SEED,
{
    (state, &RESERVE_SEED)
}

pub fn msol_mint_authority_seeds(state: &[u8; 32]) -> (r: (&[u8; 32], &[u8; 7]))
    ensures
        *r.0 == *state,
        *r.1 == MSOL_MINT_AUTHORITY_SEED,
{
    (state, &MSOL_MINT_AUTHORITY_SEED)
}

/// Seeds of a validator's duplication flag: state, tag, validator.
pub fn duplication_flag_seeds<'a>(state: &'a [u8; 32], validator_account: &'a [u8; 32]) -> (r: (
    &'a [u8; 32],
    &'a [u8; 16],
    &'a [u8; 32],
))
    ensures
        *r.0 == *state,
        *r.1 == DUPLICATION_FLAG_SEED,
        *r.2 == *validator_account,
{
    (state, &DUPLICATION_FLAG_SEED, validator_account)
}

pub fn stake_withdraw_authority_seeds(state: &[u8; 32]) -> (r: (&[u8; 32], &[u8; 8]))
    ensures
        *r.0 == *state,
        *r.1 == STAKE_WITHDRAW_AUTHORITY_SEED,
{
    (state, &STAKE_WITHDRAW_AUTHORITY_SEED)
}

pub fn stake_deposit_authority_seeds(state: &[u8; 32]) -> (r: (&[u8; 32], &[u8; 7]))
    ensures
        *r.0 == *state,
        *r.1 == STAKE_DEPOSIT_AUTHORITY_SEED,
{
    (state, &STAKE_DEPOSIT_AUTHORITY_SEED)
}

/// The program-derived address of `program` for `seeds`, with its bump:
/// the first hash of seeds, bump, program id and marker, bump counting down
/// from 255, that is not a point of the ed25519 curve.
pub uninterp spec fn program_address_of(seeds: Seq<Seq<u8>>, program: Seq<u8>) -> (Seq<u8>, u8);

/// Relies on const_crypto::ed25519::derive_program_address, which depends on
/// its arguments alone. Its search ends at the first bump whose hash is off
/// the curve; for each bump that happens with probability about one half,
/// and no seeds are known for which all 256 bumps fail.
#[verifier::external_body]
pub(crate) fn derive_program_address(seed0: &[u8], seed1: &[u8], program: &[u8; 32]) -> (r: (
    [u8; 32],
    u8,
))
    ensures
        (r.0@, r.1) == program_address_of(seq![seed0@, seed1@], program@),
{
    const_crypto::ed25519::derive_program_address(&[seed0, seed1], program)
}

} // verus!
