//! Token amounts. A transaction carries its amount as a whole number of the
//! token's smallest unit, of which a token has a hundred million; people
//! write and read amounts as decimal numbers of tokens.

use crate::result::Error;
use crate::text::decimal_digits;
use crate::text::fixed_digits;
use helium_api::models::Hnt;
use vstd::prelude::*;

verus! {

/// How many decimal places a token has.
pub const TOKEN_DECIMALS: u32 = 8;

/// How many smallest units make one token.
pub const UNITS_PER_TOKEN: u64 = 100_000_000;

/// Ten to the power `e`.
pub open spec fn pow10(e: nat) -> nat
    decreases e,
{
    if e == 0 {
        1
    } else {
        10 * pow10((e - 1) as nat)
    }
}

/// An amount of smallest units written as a number of tokens: the whole
/// tokens, a point, and all eight decimal places.
pub open spec fn token_digits(units: u64) -> Seq<char> {
    decimal_digits((units / UNITS_PER_TOKEN) as nat) + seq!['.'] + fixed_digits(
        (units % UNITS_PER_TOKEN) as nat,
        TOKEN_DECIMALS as nat,
    )
}

/// The smallest units in the decimal number `mantissa / 10^scale` of
/// tokens, or why there are none.
pub open spec fn decimal_units(mantissa: int, scale: nat) -> Result<u64, Error> {
    if scale > TOKEN_DECIMALS {
        Err(Error::AmountPrecision)
    } else if mantissa < 0 {
        Err(Error::AmountNegative)
    } else if mantissa * pow10((TOKEN_DECIMALS - scale) as nat) > u64::MAX {
        Err(Error::AmountOverflow)
    } else {
        Ok((mantissa * pow10((TOKEN_DECIMALS - scale) as nat)) as u64)
    }
}

fn power_of_ten(e: u32) -> (p: u64)
    requires
        e <= TOKEN_DECIMALS,
    ensures
        p == pow10(e as nat),
        1 <= p <= UNITS_PER_TOKEN,
{
    let mut p: u64 = 1;
    let mut i: u32 = 0;
    proof {
        lemma_units_per_token();
    }
    while i < e
        invariant
            i <= e <= TOKEN_DECIMALS,
            p == pow10(i as nat),
            p * pow10((TOKEN_DECIMALS - i) as nat) == UNITS_PER_TOKEN,
            1 <= p,
        decreases e - i,
    {
        proof {
            reveal_with_fuel(pow10, 2);
            assert(p * (10 * pow10((TOKEN_DECIMALS - i - 1) as nat)) == (p * 10) * pow10(
                (TOKEN_DECIMALS - i - 1) as nat,
            )) by (nonlinear_arith);
            lemma_pow10_positive((TOKEN_DECIMALS - i - 1) as nat);
            assert(p * 10 <= UNITS_PER_TOKEN) by (nonlinear_arith)
                requires
                    (p * 10) * pow10((TOKEN_DECIMALS - i - 1) as nat) == UNITS_PER_TOKEN,
                    pow10((TOKEN_DECIMALS - i - 1) as nat) >= 1,
                    p >= 1,
            ;
        }
        p = p * 10;
        i = i + 1;
    }
    proof {
        lemma_pow10_positive((TOKEN_DECIMALS - e) as nat);
        assert(p <= UNITS_PER_TOKEN) by (nonlinear_arith)
            requires
                p * pow10((TOKEN_DECIMALS - e) as nat) == UNITS_PER_TOKEN,
                pow10((TOKEN_DECIMALS - e) as nat) >= 1,
                p >= 1,
        ;
    }
    p
}

/// A token has ten to the power of its decimal places of smallest units.
pub proof fn lemma_units_per_token()
    ensures
        pow10(TOKEN_DECIMALS as nat) == UNITS_PER_TOKEN,
{
    reveal_with_fuel(pow10, 9);
}

/// A power of ten is at least one.
pub proof fn lemma_pow10_positive(e: nat)
    ensures
        pow10(e) >= 1,
    decreases e,
{
    if e > 0 {
        lemma_pow10_positive((e - 1) as nat);
    }
}

/// Converts the decimal number `mantissa / 10^scale` of tokens to smallest
/// units. Refused are, in this order: an amount with more than eight
/// decimal places, an amount below zero, and an amount that does not fit in
/// 64 bits.
pub fn units_from_decimal(mantissa: i128, scale: u32) -> (units: Result<u64, Error>)
    ensures
        units == decimal_units(mantissa as int, scale as nat),
{
    if scale > TOKEN_DECIMALS {
        return Err(Error::AmountPrecision);
    }
    if mantissa < 0 {
        return Err(Error::AmountNegative);
    }
    let factor: u64 = power_of_ten(TOKEN_DECIMALS - scale);
    let limit: u64 = u64::MAX / factor;
    proof {
        assert(mantissa > limit ==> mantissa * factor > u64::MAX) by (nonlinear_arith)
            requires
                limit == u64::MAX as int / factor as int,
                factor >= 1,
        ;
        assert(mantissa <= limit ==> mantissa * factor <= u64::MAX) by (nonlinear_arith)
            requires
                limit == u64::MAX as int / factor as int,
                factor >= 1,
                mantissa >= 0,
        ;
    }
    if mantissa > limit as i128 {
        return Err(Error::AmountOverflow);
    }
    let whole: u64 = mantissa as u64;
    Ok(whole * factor)
}

/// `helium_api::models::Hnt` made with `From<u64>` and written with its
/// `Display`. The first holds the units as a decimal number with eight
/// decimal places; the second writes such a number with every decimal
/// place, and a single zero where it has no whole tokens.
#[verifier::external_body]
pub(crate) fn token_text(units: u64) -> (text: String)
    ensures
        text@ == token_digits(units),
{
    Hnt::from(units).to_string()
}

} // verus!
