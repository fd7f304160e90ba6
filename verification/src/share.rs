//! Basis-point shares: a beneficiary's portion of an amount, out of 10,000.

use vstd::prelude::*;
use vstd::arithmetic::div_mod::{
    lemma_div_is_ordered, lemma_div_multiples_vanish, lemma_fundamental_div_mod,
    lemma_hoist_over_denominator,
};

verus! {

/// The number of basis points that make up the whole of an amount.
pub const BASIS_POINTS: u32 = 10000;

/// The portion of `amount` that `basis_points` out of 10,000 stand for,
/// rounded down. What the rounding leaves over stays with the pool.
pub open spec fn allocate(amount: nat, basis_points: nat) -> nat {
    amount * basis_points / 10000
}

/// `cosmwasm_std::Uint128::multiply_ratio`, on plain integers: the exact
/// product `amount * numerator`, divided by `denominator` and rounded down.
/// The outside function panics on a zero denominator and where the quotient
/// does not fit in 128 bits; both are excluded here.
#[verifier::external_body]
fn multiply_ratio(amount: u128, numerator: u32, denominator: u32) -> (r: u128)
    requires
        denominator != 0,
        amount * numerator / (denominator as int) <= u128::MAX,
    ensures
        r == amount * numerator / (denominator as int),
{
    cosmwasm_std::Uint128::new(amount).multiply_ratio(numerator, denominator).u128()
}

/// One line of a share table: who is paid, and how many basis points.
#[derive(Debug, PartialEq)]
pub struct FundShare {
    pub address: String,
    pub note: String,
    /// In hundredths of a percent.
    pub share: u32,
}

/// The mathematical value of a `FundShare`.
pub struct FundShareView {
    pub address: Seq<char>,
    pub note: Seq<char>,
    pub share: u32,
}

impl View for FundShare {
    type V = FundShareView;

    open spec fn view(&self) -> FundShareView {
        FundShareView { address: self.address@, note: self.note@, share: self.share }
    }
}

impl DeepView for FundShare {
    type V = FundShareView;

    open spec fn deep_view(&self) -> FundShareView {
        self@
    }
}

impl FundShareView {
    /// This beneficiary's portion of `fund`.
    pub open spec fn portion(self, fund: nat) -> nat {
        allocate(fund, self.share as nat)
    }
}

impl FundShare {
    /// Whether this beneficiary's portion of `fund` fits in 128 bits.
    pub fn share_fits(&self, fund: u128) -> (fits: bool)
        ensures
            fits == (allocate(fund as nat, self.share as nat) <= u128::MAX),
    {
        let whole: u128 = fund / 10000;
        let rest: u128 = fund % 10000;
        assert(rest * self.share <= 10000 * 0x1_0000_0000) by (nonlinear_arith)
            requires
                rest < 10000,
                self.share < 0x1_0000_0000,
        ;
        let low: u128 = rest * (self.share as u128) / 10000;
        proof {
            lemma_allocate_split(fund as nat, self.share as nat);
        }
        match whole.checked_mul(self.share as u128) {
            None => false,
            Some(high) => high.checked_add(low).is_some(),
        }
    }

    /// This beneficiary's portion of `fund`: `fund * share / 10000`, rounded
    /// down.
    pub fn get_share(&self, fund: u128) -> (portion: u128)
        requires
            allocate(fund as nat, self.share as nat) <= u128::MAX,
        ensures
            portion == allocate(fund as nat, self.share as nat),
    {
        multiply_ratio(fund, self.share, BASIS_POINTS)
    }
}

impl Clone for FundShare {
    fn clone(&self) -> (copy: Self)
        ensures
            copy@ == self@,
    {
        FundShare { address: self.address.clone(), note: self.note.clone(), share: self.share }
    }
}

/// A copy of a share table.
pub fn clone_shares(shares: &Vec<FundShare>) -> (copy: Vec<FundShare>)
    ensures
        copy.deep_view() == shares.deep_view(),
{
    let mut copy: Vec<FundShare> = Vec::new();
    let n = shares.len();
    for i in 0..n
        invariant
            n == shares.len(),
            copy.len() == i,
            forall|j: int| 0 <= j < i ==> copy[j]@ == shares[j]@,
    {
        copy.push(shares[i].clone());
    }
    copy
}

/// The portion of an amount is the portion of its whole ten-thousands plus
/// the portion of the rest.
pub proof fn lemma_allocate_split(amount: nat, basis_points: nat)
    ensures
        allocate(amount, basis_points) == (amount / 10000) * basis_points + (amount % 10000)
            * basis_points / 10000,
{
    let q = (amount / 10000) as int;
    let r = (amount % 10000) as int;
    let b = basis_points as int;
    assert(amount * b == (q * b) * 10000 + r * b) by (nonlinear_arith)
        requires
            amount == q * 10000 + r,
    ;
    lemma_hoist_over_denominator(r * b, q * b, 10000);
}

/// Nothing is the portion of nothing, and no basis points give nothing.
pub proof fn lemma_allocate_zero(amount: nat, basis_points: nat)
    ensures
        allocate(0, basis_points) == 0,
        allocate(amount, 0) == 0,
{
    assert(0 * basis_points == 0) by (nonlinear_arith);
    assert(amount * 0 == 0) by (nonlinear_arith);
}

/// A larger amount has no smaller portion.
pub proof fn lemma_allocate_monotone(less: nat, more: nat, basis_points: nat)
    requires
        less <= more,
    ensures
        allocate(less, basis_points) <= allocate(more, basis_points),
{
    assert(less * basis_points <= more * basis_points) by (nonlinear_arith)
        requires
            less <= more,
    ;
    lemma_div_is_ordered((less * basis_points) as int, (more * basis_points) as int, 10000);
}

/// Rounding down never gains: the portions of two amounts add up to no more
/// than the portion of their sum.
pub proof fn lemma_allocate_superadditive(a: nat, b: nat, basis_points: nat)
    ensures
        allocate(a, basis_points) + allocate(b, basis_points) <= allocate(a + b, basis_points),
{
    let x = (a * basis_points) as int;
    let y = (b * basis_points) as int;
    assert((a + b) * basis_points == x + y) by (nonlinear_arith)
        requires
            x == a * basis_points,
            y == b * basis_points,
    ;
    lemma_quotients_superadditive(x, y);
}

/// The portions that two shares give of one amount add up to no more than
/// the portion that their basis points together give.
pub proof fn lemma_allocate_superadditive_points(amount: nat, p: nat, q: nat)
    ensures
        allocate(amount, p) + allocate(amount, q) <= allocate(amount, p + q),
{
    let x = (amount * p) as int;
    let y = (amount * q) as int;
    assert(amount * (p + q) == x + y) by (nonlinear_arith)
        requires
            x == amount * p,
            y == amount * q,
    ;
    lemma_quotients_superadditive(x, y);
}

/// Up to 10,000 basis points give no more than the amount.
pub proof fn lemma_allocate_within(amount: nat, basis_points: nat)
    requires
        basis_points <= 10000,
    ensures
        allocate(amount, basis_points) <= amount,
{
    assert(amount * basis_points <= 10000 * amount) by (nonlinear_arith)
        requires
            basis_points <= 10000,
    ;
    lemma_div_is_ordered((amount * basis_points) as int, 10000 * (amount as int), 10000);
    lemma_div_multiples_vanish(amount as int, 10000);
}

/// The basis points of a share table, added up.
pub open spec fn total_basis_points(shares: Seq<FundShareView>) -> nat
    decreases shares.len(),
{
    if shares.len() == 0 {
        0
    } else {
        shares[0].share as nat + total_basis_points(shares.drop_first())
    }
}

/// Each line's portion of `amount`, added up.
pub open spec fn portions(shares: Seq<FundShareView>, amount: nat) -> nat
    decreases shares.len(),
{
    if shares.len() == 0 {
        0
    } else {
        shares[0].portion(amount) + portions(shares.drop_first(), amount)
    }
}

/// The portions of an amount under a share table add up to no more than the
/// portion that all its basis points together give: to no more than the
/// amount, where these are at most 10,000.
pub proof fn lemma_portions_within(shares: Seq<FundShareView>, amount: nat)
    ensures
        portions(shares, amount) <= allocate(amount, total_basis_points(shares)),
        total_basis_points(shares) <= 10000 ==> portions(shares, amount) <= amount,
    decreases shares.len(),
{
    if shares.len() == 0 {
        lemma_allocate_zero(amount, 0);
    } else {
        let rest = shares.drop_first();
        lemma_portions_within(rest, amount);
        lemma_allocate_superadditive_points(
            amount,
            shares[0].share as nat,
            total_basis_points(rest),
        );
    }
    if total_basis_points(shares) <= 10000 {
        lemma_allocate_within(amount, total_basis_points(shares));
    }
}

proof fn lemma_quotients_superadditive(x: int, y: int)
    requires
        0 <= x,
        0 <= y,
    ensures
        x / 10000 + y / 10000 <= (x + y) / 10000,
{
    lemma_fundamental_div_mod(x, 10000);
    lemma_fundamental_div_mod(y, 10000);
    let whole = x / 10000 + y / 10000;
    lemma_div_is_ordered(10000 * whole, x + y, 10000);
    lemma_div_multiples_vanish(whole, 10000);
}

} // verus!
