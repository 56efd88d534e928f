//! Exact arithmetic on the game's quantities.
//!
//! Every quantity is a whole number of a fixed small unit, so that no
//! operation rounds unless the rules of the game say so.
//!
//! * A per-second contribution or a click multiplier is counted in
//!   millionths ([`MICROS_PER_ONE`] to the whole).
//! * The accumulation rate is counted in hundredths of a spice per second.
//! * Time is counted in nanoseconds.
//! * A spice amount is counted in units of which [`UNITS_PER_SPICE`] make
//!   one spice: one unit is what a rate of one hundredth yields in one
//!   nanosecond, so a rate times a time span is a whole number of units.
//!
//! Amounts are held in `u128`. Where a sum or a product would pass
//! `u128::MAX` it stays at `u128::MAX`.
use vstd::prelude::*;

verus! {

/// Millionths in one whole: the scale of contributions and multipliers.
pub const MICROS_PER_ONE: u64 = 1_000_000;

/// Millionths in one hundredth: the step to which the rate is rounded.
pub const MICROS_PER_HUNDREDTH: u128 = 10_000;

/// Nanoseconds in one second.
pub const NANOS_PER_SECOND: u64 = 1_000_000_000;

/// Amount units in one spice: hundredths per whole times nanoseconds per
/// second.
pub const UNITS_PER_SPICE: u128 = 100_000_000_000;

/// `x`, or `u128::MAX` where `x` is larger.
pub open spec fn capped(x: nat) -> nat {
    if x > u128::MAX {
        u128::MAX as nat
    } else {
        x
    }
}

/// A count of millionths rounded to the nearest hundredth, a half going up.
pub open spec fn rounded_hundredths(micros: nat) -> nat {
    (micros + 5_000) / 10_000
}

/// `amount` times a factor given in millionths, the fraction of a unit
/// dropped.
pub open spec fn scaled(amount: nat, factor_micros: nat) -> nat {
    (amount * factor_micros) / 1_000_000
}

/// The sum of two amounts, held at `u128::MAX`.
pub fn add_capped(a: u128, b: u128) -> (r: u128)
    ensures
        r == capped((a + b) as nat),
{
    match a.checked_add(b) {
        Some(s) => s,
        None => u128::MAX,
    }
}

/// The product of two amounts, held at `u128::MAX`.
pub fn mul_capped(a: u128, b: u128) -> (r: u128)
    ensures
        r == capped((a * b) as nat),
{
    match a.checked_mul(b) {
        Some(p) => p,
        None => u128::MAX,
    }
}

/// Rounds a count of millionths to hundredths, a half going up.
pub fn round_to_hundredths(micros: u128) -> (r: u128)
    ensures
        r == rounded_hundredths(micros as nat),
{
    let whole: u128 = micros / MICROS_PER_HUNDREDTH;
    let rest: u128 = micros % MICROS_PER_HUNDREDTH;
    if rest >= 5_000 {
        whole + 1
    } else {
        whole
    }
}

/// Splitting `amount` by the scale gives the scaled product without a wide
/// multiplication.
pub proof fn lemma_scaled_split(amount: nat, factor_micros: nat)
    ensures
        scaled(amount, factor_micros) == (amount / 1_000_000) * factor_micros + ((amount
            % 1_000_000) * factor_micros) / 1_000_000,
{
    let q = amount / 1_000_000;
    let r = amount % 1_000_000;
    assert(amount * factor_micros == (q * factor_micros) * 1_000_000 + r * factor_micros)
        by (nonlinear_arith)
        requires
            amount == q * 1_000_000 + r,
    ;
    vstd::arithmetic::div_mod::lemma_hoist_over_denominator(
        (r * factor_micros) as int,
        (q * factor_micros) as int,
        1_000_000,
    );
}

/// `amount` times a factor in millionths, the fraction of a unit dropped,
/// held at `u128::MAX`.
pub fn scale_capped(amount: u128, factor_micros: u64) -> (r: u128)
    ensures
        r == capped(scaled(amount as nat, factor_micros as nat)),
{
    let one: u128 = MICROS_PER_ONE as u128;
    let q: u128 = amount / one;
    let rest: u128 = amount % one;
    assert(rest * factor_micros <= 1_000_000 * 0xffff_ffff_ffff_ffff) by (nonlinear_arith)
        requires
            rest <= 1_000_000,
            factor_micros <= 0xffff_ffff_ffff_ffff,
    ;
    let low: u128 = (rest * (factor_micros as u128)) / one;
    let high: u128 = mul_capped(q, factor_micros as u128);
    proof {
        lemma_scaled_split(amount as nat, factor_micros as nat);
    }
    add_capped(high, low)
}

} // verus!
