//! Unsigned fixed-point decimals with 18 fractional digits, as used for
//! reward-per-share accounting, and the rounding rules of their operations.

use vstd::prelude::*;

verus! {

/// One whole unit in atomic units: `10^18`.
pub const DECIMAL_FRACTIONAL: u128 = 1_000_000_000_000_000_000u128;

/// A non-negative decimal `atomics / 10^18`.
#[derive(Clone, Copy, Debug, PartialEq, Eq, Structural)]
pub struct Decimal {
    pub atomics: u128,
}

/// `amount * d`, rounded down, as a mathematical integer.
pub open spec fn mul_floor(amount: int, d: Decimal) -> int {
    amount * (d.atomics as int) / (DECIMAL_FRACTIONAL as int)
}

/// The atomics of `numerator / denominator`, rounded down.
pub open spec fn ratio_atomics(numerator: int, denominator: int) -> int {
    numerator * (DECIMAL_FRACTIONAL as int) / denominator
}

/// The atomics of the product of two decimals, rounded down.
pub open spec fn product_atomics(a: Decimal, b: Decimal) -> int {
    (a.atomics as int) * (b.atomics as int) / (DECIMAL_FRACTIONAL as int)
}

/// `a - b`, or zero when `b` exceeds `a`.
pub open spec fn sat_sub(a: int, b: int) -> int {
    if a >= b {
        a - b
    } else {
        0
    }
}

impl Decimal {
    /// The decimal zero.
    pub fn zero() -> (r: Decimal)
        ensures
            r.atomics == 0,
    {
        Decimal { atomics: 0 }
    }

    /// The decimal with the given atomics (`value / 10^18`).
    pub fn raw(value: u128) -> (r: Decimal)
        ensures
            r.atomics == value,
    {
        Decimal { atomics: value }
    }

    /// The decimal with the given atomics; the same as [`Decimal::raw`].
    pub fn new(value: u128) -> (r: Decimal)
        ensures
            r.atomics == value,
    {
        Decimal { atomics: value }
    }

    /// `x` percent.
    pub fn percent(x: u64) -> (r: Decimal)
        ensures
            r.atomics == (x as int) * 10_000_000_000_000_000,
    {
        assert((x as int) * 10_000_000_000_000_000 <= u128::MAX) by (nonlinear_arith)
            requires
                x <= u64::MAX,
        ;
        Decimal { atomics: (x as u128) * 10_000_000_000_000_000u128 }
    }

    /// The atomics of this decimal.
    pub fn atomics(&self) -> (r: u128)
        ensures
            r == self.atomics,
    {
        self.atomics
    }

    /// Whether this decimal is zero.
    pub fn is_zero(&self) -> (r: bool)
        ensures
            r == (self.atomics == 0),
    {
        self.atomics == 0
    }

    /// Rounds down to a whole number.
    pub fn floor(&self) -> (r: Decimal)
        ensures
            r.atomics == self.atomics - self.atomics % DECIMAL_FRACTIONAL,
    {
        let whole = self.atomics / DECIMAL_FRACTIONAL;
        assert(whole * DECIMAL_FRACTIONAL == self.atomics - self.atomics % DECIMAL_FRACTIONAL)
            by (nonlinear_arith)
            requires
                whole == self.atomics / DECIMAL_FRACTIONAL,
                DECIMAL_FRACTIONAL > 0,
        ;
        Decimal { atomics: whole * DECIMAL_FRACTIONAL }
    }

    /// The sum of two decimals; it must not exceed the largest decimal.
    pub fn plus(self, other: Decimal) -> (r: Decimal)
        requires
            self.atomics + other.atomics <= u128::MAX,
        ensures
            r.atomics == self.atomics + other.atomics,
    {
        Decimal { atomics: self.atomics + other.atomics }
    }

    /// `self / other`, rounded down to 18 fractional digits.
    pub fn divide(self, other: Decimal) -> (r: Decimal)
        requires
            other.atomics > 0,
            ratio_atomics(self.atomics as int, other.atomics as int) <= u128::MAX,
        ensures
            r.atomics == ratio_atomics(self.atomics as int, other.atomics as int),
    {
        crate::cosmwasm::decimal_div(self, other)
    }

    /// `self * other`, rounded down to 18 fractional digits.
    pub fn multiply(self, other: Decimal) -> (r: Decimal)
        requires
            product_atomics(self, other) <= u128::MAX,
        ensures
            r.atomics == product_atomics(self, other),
    {
        crate::cosmwasm::decimal_mul(self, other)
    }

    /// `numerator / denominator` as a decimal, rounded down.
    pub fn from_ratio(numerator: u128, denominator: u128) -> (r: Decimal)
        requires
            denominator > 0,
            ratio_atomics(numerator as int, denominator as int) <= u128::MAX,
        ensures
            r.atomics == ratio_atomics(numerator as int, denominator as int),
    {
        crate::cosmwasm::decimal_from_ratio(numerator, denominator)
    }
}

/// `amount * d`, rounded down to a whole amount.
pub fn mul_decimal(amount: u128, d: Decimal) -> (r: u128)
    requires
        mul_floor(amount as int, d) <= u128::MAX,
    ensures
        r == mul_floor(amount as int, d),
{
    crate::cosmwasm::uint128_mul_decimal(amount, d)
}

/// `mul_floor` is monotone in the amount and never negative.
pub proof fn lemma_mul_floor_monotone(a: int, b: int, d: Decimal)
    requires
        0 <= a <= b,
    ensures
        0 <= mul_floor(a, d) <= mul_floor(b, d),
{
    let f = DECIMAL_FRACTIONAL as int;
    let x = d.atomics as int;
    assert(0 <= a * x <= b * x) by (nonlinear_arith)
        requires
            0 <= a <= b,
            0 <= x,
    ;
    assert(0 <= (a * x) / f <= (b * x) / f) by (nonlinear_arith)
        requires
            0 <= a * x <= b * x,
            f > 0,
    ;
}

/// `amount * d` rounded down, when it fits in `u128`.
pub fn checked_mul_decimal(amount: u128, d: Decimal) -> (r: Option<u128>)
    ensures
        r is Some <==> mul_floor(amount as int, d) <= u128::MAX,
        r matches Some(v) ==> v == mul_floor(amount as int, d),
{
    crate::cosmwasm::checked_multiply_ratio(amount, d.atomics, DECIMAL_FRACTIONAL)
}

/// The atomics of `numerator / denominator`, when the denominator is not zero
/// and they fit in `u128`.
pub fn checked_ratio(numerator: u128, denominator: u128) -> (r: Option<u128>)
    ensures
        r is Some <==> (denominator > 0 && ratio_atomics(numerator as int, denominator as int) <= u128::MAX),
        r matches Some(v) ==> v == ratio_atomics(numerator as int, denominator as int),
{
    crate::cosmwasm::checked_multiply_ratio(numerator, DECIMAL_FRACTIONAL, denominator)
}

/// The atomics of `a * b`, when they fit in `u128`.
pub fn checked_product(a: Decimal, b: Decimal) -> (r: Option<u128>)
    ensures
        r is Some <==> product_atomics(a, b) <= u128::MAX,
        r matches Some(v) ==> v == product_atomics(a, b),
{
    crate::cosmwasm::checked_multiply_ratio(a.atomics, b.atomics, DECIMAL_FRACTIONAL)
}

} // verus!
