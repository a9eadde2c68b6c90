//! The calls into `cosmwasm-std` that the logic makes: fixed-point arithmetic
//! of `Uint128` and `Decimal`, and the check on coins sent with a message.
//! Each contract below states what the crate's source computes.

use vstd::prelude::*;
use crate::common::{funds_cover, Coin};
use crate::math::{mul_floor, product_atomics, ratio_atomics, Decimal};

verus! {

/// `Uint128 * Decimal` of cosmwasm-std: `amount * atomics / 10^18` computed
/// in 256 bits and rounded down; it panics when the result exceeds `u128`.
#[verifier::external_body]
pub(crate) fn uint128_mul_decimal(amount: u128, d: Decimal) -> (r: u128)
    requires
        mul_floor(amount as int, d) <= u128::MAX,
    ensures
        r == mul_floor(amount as int, d),
{
    (cosmwasm_std::Uint128::new(amount) * cosmwasm_std::Decimal::raw(d.atomics)).u128()
}

/// `Decimal / Decimal` of cosmwasm-std: `a * 10^18 / b` computed in 256 bits
/// and rounded down; it panics when `b` is zero or the result exceeds `u128`.
#[verifier::external_body]
pub(crate) fn decimal_div(a: Decimal, b: Decimal) -> (r: Decimal)
    requires
        b.atomics > 0,
        ratio_atomics(a.atomics as int, b.atomics as int) <= u128::MAX,
    ensures
        r.atomics == ratio_atomics(a.atomics as int, b.atomics as int),
{
    let q = cosmwasm_std::Decimal::raw(a.atomics) / cosmwasm_std::Decimal::raw(b.atomics);
    Decimal { atomics: q.atomics().u128() }
}

/// `Decimal * Decimal` of cosmwasm-std: `a * b / 10^18` computed in 256 bits
/// and rounded down; it panics when the result exceeds `u128`.
#[verifier::external_body]
pub(crate) fn decimal_mul(a: Decimal, b: Decimal) -> (r: Decimal)
    requires
        product_atomics(a, b) <= u128::MAX,
    ensures
        r.atomics == product_atomics(a, b),
{
    let p = cosmwasm_std::Decimal::raw(a.atomics) * cosmwasm_std::Decimal::raw(b.atomics);
    Decimal { atomics: p.atomics().u128() }
}

/// `Decimal::from_ratio` of cosmwasm-std: `numerator * 10^18 / denominator`
/// rounded down; it panics when the denominator is zero or on overflow.
#[verifier::external_body]
pub(crate) fn decimal_from_ratio(numerator: u128, denominator: u128) -> (r: Decimal)
    requires
        denominator > 0,
        ratio_atomics(numerator as int, denominator as int) <= u128::MAX,
    ensures
        r.atomics == ratio_atomics(numerator as int, denominator as int),
{
    let d = cosmwasm_std::Decimal::from_ratio(numerator, denominator);
    Decimal { atomics: d.atomics().u128() }
}

/// `Uint128::checked_multiply_ratio` of cosmwasm-std: `a * numerator /
/// denominator` computed in 256 bits and rounded down, when the denominator
/// is not zero and the result fits in `u128`; nothing otherwise.
#[verifier::external_body]
pub(crate) fn checked_multiply_ratio(a: u128, numerator: u128, denominator: u128) -> (r: Option<u128>)
    ensures
        r is Some <==> (denominator > 0 && (a as int) * (numerator as int) / (denominator as int) <= u128::MAX),
        r matches Some(v) ==> v == (a as int) * (numerator as int) / (denominator as int),
{
    cosmwasm_std::Uint128::new(a).checked_multiply_ratio(numerator, denominator).ok().map(|v| v.u128())
}

/// `has_coins` of cosmwasm-std: true when the first coin of `funds` with the
/// required denomination holds at least the required amount.
#[verifier::external_body]
pub(crate) fn has_coins(funds: &Vec<Coin>, denom: &String, amount: u128) -> (r: bool)
    ensures
        r == funds_cover(funds@, denom@, amount),
{
    let coins: Vec<cosmwasm_std::Coin> = funds
        .iter()
        .map(|c| cosmwasm_std::Coin { denom: c.denom.clone(), amount: c.amount.into() })
        .collect();
    cosmwasm_std::has_coins(&coins, &cosmwasm_std::Coin { denom: denom.clone(), amount: amount.into() })
}

} // verus!
