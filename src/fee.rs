use vstd::prelude::*;

use sanctum_fee_ratio::Fee as FloorFee;
use sanctum_u64_ratio::{Floor, Ratio};

verus! {

/// Denominator of a [`Fee`]: one basis point is 1/10_000.
pub const FEE_DENOMINATOR: u16 = 10_000;

/// Denominator of a [`FeeCents`]: one fee cent is 1/1_000_000.
pub const FEE_CENTS_DENOMINATOR: u32 = 1_000_000;

/// sanctum_fee_ratio's fee: a ratio of at most one, fields private.
#[verifier::external_type_specification]
#[verifier::external_body]
#[verifier::reject_recursive_types(D)]
pub struct ExFloorFee<D>(FloorFee<D>);

/// The ratio `(n, d)` held by a sanctum fee over a `u32` numerator and a
/// `u16` denominator.
pub uninterp spec fn bp_fee_ratio(f: FloorFee<Floor<Ratio<u32, u16>>>) -> (u32, u16);

/// The ratio `(n, d)` held by a sanctum fee over a `u32` numerator and a
/// `u32` denominator.
pub uninterp spec fn cents_fee_ratio(f: FloorFee<Floor<Ratio<u32, u32>>>) -> (u32, u32);

/// Relies on sanctum_fee_ratio's `Fee::<Floor<Ratio<u32, u16>>>::new`: a fee
/// exactly when the denominator is not zero and the numerator does not
/// exceed it, holding `Floor(fee_ratio)` unchanged.
pub assume_specification[ FloorFee::<Floor<Ratio<u32, u16>>>::new ](
    fee_ratio: Ratio<u32, u16>,
) -> (r: Option<FloorFee<Floor<Ratio<u32, u16>>>>)
    ensures
        r is Some <==> (fee_ratio.d != 0 && fee_ratio.n <= fee_ratio.d),
        r matches Some(f) ==> bp_fee_ratio(f) == (fee_ratio.n, fee_ratio.d),
;

/// Relies on sanctum_fee_ratio's `Fee::<Floor<Ratio<u32, u32>>>::new`: a fee
/// exactly when the denominator is not zero and the numerator does not
/// exceed it, holding `Floor(fee_ratio)` unchanged.
pub assume_specification[ FloorFee::<Floor<Ratio<u32, u32>>>::new ](
    fee_ratio: Ratio<u32, u32>,
) -> (r: Option<FloorFee<Floor<Ratio<u32, u32>>>>)
    ensures
        r is Some <==> (fee_ratio.d != 0 && fee_ratio.n <= fee_ratio.d),
        r matches Some(f) ==> cents_fee_ratio(f) == (fee_ratio.n, fee_ratio.d),
;

/// An amount split into the fee levied on it and what remains.
#[derive(Debug, Clone, Copy, PartialEq, Eq, Structural)]
pub struct FeeSplit {
    pub rem: u64,
    pub fee: u64,
}

/// `floor(amount * n / d)`, the fee levied by the fraction `n / d`.
pub open spec fn floor_fee(amount: u64, n: int, d: int) -> int
    recommends
        d > 0,
{
    (amount as int * n) / d
}

/// A fee fraction of at most one takes no more than the whole amount.
pub proof fn lemma_floor_fee_bounded(amount: u64, n: int, d: int)
    requires
        0 <= n <= d,
        d > 0,
    ensures
        0 <= floor_fee(amount, n, d) <= amount,
{
    let a = amount as int;
    assert(0 <= a * n) by (nonlinear_arith)
        requires
            0 <= a,
            0 <= n,
    ;
    assert(a * n <= d * a) by (nonlinear_arith)
        requires
            0 <= a,
            n <= d,
    ;
    vstd::arithmetic::div_mod::lemma_div_is_ordered(a * n, d * a, d);
    vstd::arithmetic::div_mod::lemma_div_multiples_vanish(a, d);
    vstd::arithmetic::div_mod::lemma_div_pos_is_pos(a * n, d);
}

/// What levying the fee `n / d` on `amount` yields: nothing when the
/// fraction is malformed (`d == 0` or `n > d`), else the fee and the rest.
pub open spec fn fee_split_spec(amount: u64, n: int, d: int) -> Option<FeeSplit> {
    if d == 0 || n > d {
        None
    } else {
        Some(
            FeeSplit {
                fee: floor_fee(amount, n, d) as u64,
                rem: (amount - floor_fee(amount, n, d)) as u64,
            },
        )
    }
}

/// Relies on sanctum_fee_ratio's `Fee::<Floor<Ratio<u32, u16>>>::new`, which
/// refuses `d == 0` and `n > d`, and on its `apply`, which levies
/// `floor(amount * n / d)` and leaves `amount` minus that.
#[verifier::external_body]
fn apply_floor_fee_u32_u16(n: u32, d: u16, amount: u64) -> (r: Option<FeeSplit>)
    ensures
        r == fee_split_spec(amount, n as int, d as int),
{
    FloorFee::<Floor<Ratio<u32, u16>>>::new(Ratio { n, d })
        .and_then(|f| f.apply(amount))
        .map(|a| FeeSplit { rem: a.rem(), fee: a.fee() })
}

/// Relies on sanctum_fee_ratio's `Fee::<Floor<Ratio<u32, u32>>>::new`, which
/// refuses `d == 0` and `n > d`, and on its `apply`, which levies
/// `floor(amount * n / d)` and leaves `amount` minus that.
#[verifier::external_body]
fn apply_floor_fee_u32_u32(n: u32, d: u32, amount: u64) -> (r: Option<FeeSplit>)
    ensures
        r == fee_split_spec(amount, n as int, d as int),
{
    FloorFee::<Floor<Ratio<u32, u32>>>::new(Ratio { n, d })
        .and_then(|f| f.apply(amount))
        .map(|a| FeeSplit { rem: a.rem(), fee: a.fee() })
}

/// A fee in basis points: `basis_points / 10_000`.
#[derive(Debug, Clone, Copy, PartialEq, Eq, Structural)]
pub struct Fee {
    pub basis_points: u32,
}

impl Fee {
    /// This fee as sanctum's floor fee holding `basis_points / 10_000`;
    /// nothing when the fraction exceeds one.
    pub fn to_fee_floor(&self) -> (r: Option<FloorFee<Floor<Ratio<u32, u16>>>>)
        ensures
            r is Some <==> self.basis_points <= FEE_DENOMINATOR,
            r matches Some(f) ==> bp_fee_ratio(f) == (self.basis_points, FEE_DENOMINATOR),
    {
        FloorFee::<Floor<Ratio<u32, u16>>>::new(
            Ratio { n: self.basis_points, d: FEE_DENOMINATOR },
        )
    }

    /// Levies this fee on `amount`, rounding the fee down; nothing when
    /// the fraction exceeds one.
    pub fn apply(&self, amount: u64) -> (r: Option<FeeSplit>)
        ensures
            r == fee_split_spec(amount, self.basis_points as int, FEE_DENOMINATOR as int),
            r is Some <==> self.basis_points <= FEE_DENOMINATOR,
            r matches Some(s) ==> s.fee <= amount && s.fee + s.rem == amount,
    {
        proof {
            if self.basis_points <= FEE_DENOMINATOR {
                lemma_floor_fee_bounded(amount, self.basis_points as int, FEE_DENOMINATOR as int);
            }
        }
        apply_floor_fee_u32_u16(self.basis_points, FEE_DENOMINATOR, amount)
    }
}

impl Default for Fee {
    fn default() -> (r: Fee)
        ensures
            r.basis_points == 0,
    {
        Fee { basis_points: 0 }
    }
}

/// A fee in hundredths of a basis point: `bp_cents / 1_000_000`.
#[derive(Debug, Clone, Copy, PartialEq, Eq, Structural)]
pub struct FeeCents {
    pub bp_cents: u32,
}

impl FeeCents {
    /// This fee as sanctum's floor fee holding `bp_cents / 1_000_000`;
    /// nothing when the fraction exceeds one.
    pub fn to_fee_floor(&self) -> (r: Option<FloorFee<Floor<Ratio<u32, u32>>>>)
        ensures
            r is Some <==> self.bp_cents <= FEE_CENTS_DENOMINATOR,
            r matches Some(f) ==> cents_fee_ratio(f) == (self.bp_cents, FEE_CENTS_DENOMINATOR),
    {
        FloorFee::<Floor<Ratio<u32, u32>>>::new(
            Ratio { n: self.bp_cents, d: FEE_CENTS_DENOMINATOR },
        )
    }

    /// Levies this fee on `amount`, rounding the fee down; nothing when
    /// the fraction exceeds one.
    pub fn apply(&self, amount: u64) -> (r: Option<FeeSplit>)
        ensures
            r == fee_split_spec(amount, self.bp_cents as int, FEE_CENTS_DENOMINATOR as int),
            r is Some <==> self.bp_cents <= FEE_CENTS_DENOMINATOR,
            r matches Some(s) ==> s.fee <= amount && s.fee + s.rem == amount,
    {
        proof {
            if self.bp_cents <= FEE_CENTS_DENOMINATOR {
                lemma_floor_fee_bounded(amount, self.bp_cents as int, FEE_CENTS_DENOMINATOR as int);
            }
        }
        apply_floor_fee_u32_u32(self.bp_cents, FEE_CENTS_DENOMINATOR, amount)
    }
}

impl Default for FeeCents {
    fn default() -> (r: FeeCents)
        ensures
            r.bp_cents == 0,
    {
        FeeCents { bp_cents: 0 }
    }
}

} // verus!
