//! Decimal rendering of numbers for display strings.
//!
//! Everything here is verified against recursive specifications of decimal
//! notation: no formatting machinery is involved. Fixed-point values (file
//! sizes in units, coordinates in hundred-thousandths) are rendered from
//! integers with explicit rounding, so the display functions have exact
//! contracts.

use vstd::prelude::*;
use vstd::string::{StringExecFns, StrSliceExecFns};

use crate::fingerprint::{hex_digit_char, hex_digit_str};

verus! {

/// The decimal notation of a non-negative integer, most significant digit
/// first, without leading zeros (a lone zero for zero).
pub open spec fn spec_dec(n: int) -> Seq<char>
    recommends
        n >= 0,
    decreases n,
{
    if n < 10 {
        seq![hex_digit_char(n)]
    } else {
        spec_dec(n / 10).push(hex_digit_char(n % 10))
    }
}

/// The decimal notation of a non-negative integer, zero-padded on the
/// left to exactly `k` digits (the lowest `k` digits when the number has
/// more).
pub open spec fn spec_dec_padded(n: int, k: nat) -> Seq<char>
    decreases k,
{
    if k == 0 {
        Seq::empty()
    } else {
        spec_dec_padded(n / 10, (k - 1) as nat).push(hex_digit_char(n % 10))
    }
}

/// Render a number in decimal.
pub fn u64_to_string(n: u64) -> (r: String)
    ensures
        r@ == spec_dec(n as int),
    decreases n,
{
    if n < 10 {
        String::from_str(hex_digit_str(n as u8))
    } else {
        let mut s = u64_to_string(n / 10);
        s.append(hex_digit_str((n % 10) as u8));
        proof {
            assert(s@ =~= spec_dec(n as int));
        }
        s
    }
}

/// Render a number in decimal, zero-padded on the left to exactly `k`
/// digits.
pub fn u64_to_string_padded(n: u64, k: u32) -> (r: String)
    ensures
        r@ == spec_dec_padded(n as int, k as nat),
    decreases k,
{
    if k == 0 {
        String::new()
    } else {
        let mut s = u64_to_string_padded(n / 10, k - 1);
        s.append(hex_digit_str((n % 10) as u8));
        proof {
            assert(s@ =~= spec_dec_padded(n as int, k as nat));
        }
        s
    }
}

/// A size scaled to a unit with rounding to `pow` fixed decimal places:
/// the number of `unit / pow` halves, rounded half up.
pub open spec fn spec_scaled_fixed(size: int, unit: int, pow: int) -> int {
    (size * pow + unit / 2) / unit
}

/// The fixed-point rendering of `size / unit` with `decimals` decimal
/// places (rounding half up): the integer part in decimal, a dot, and the
/// zero-padded fraction.
pub open spec fn spec_fixed_display(size: int, unit: int, pow: int, decimals: nat) -> Seq<char> {
    let scaled = spec_scaled_fixed(size, unit, pow);
    spec_dec(scaled / pow) + "."@ + spec_dec_padded(scaled % pow, decimals)
}

/// Render `size / unit` with a fixed number of decimal places, rounding
/// half up. `pow` must be ten to the power of `decimals` and no larger
/// than the unit.
pub fn fixed_display(size: u64, unit: u64, pow: u64, decimals: u32) -> (r: String)
    requires
        unit >= 2,
        1 <= pow <= unit,
        pow <= 1000,
    ensures
        r@ == spec_fixed_display(size as int, unit as int, pow as int, decimals as nat),
{
    proof {
        let half = (unit as int) / 2;
        let num = (size as int) * (pow as int) + half;
        assert(0 <= half && 2 * half <= unit as int);
        assert(0 <= num && num < ((size as int) + 1) * (unit as int) && num <= 0xffffffffffffffff
            * 1000 + 0xffffffffffffffff) by (nonlinear_arith)
            requires
                num == (size as int) * (pow as int) + half,
                0 <= size <= 0xffffffffffffffffu64,
                1 <= pow <= unit,
                pow <= 1000,
                0 <= half,
                2 * half <= unit as int,
                2 <= unit,
        ;
        vstd::arithmetic::div_mod::lemma_multiply_divide_lt(num, unit as int, size as int + 1);
        vstd::arithmetic::div_mod::lemma_div_pos_is_pos(num, unit as int);
        vstd::arithmetic::div_mod::lemma_div_is_ordered_by_denominator(
            num / (unit as int),
            1,
            pow as int,
        );
        vstd::arithmetic::div_mod::lemma_div_basics(num / (unit as int));
        vstd::arithmetic::div_mod::lemma_div_pos_is_pos(num / (unit as int), pow as int);
        vstd::arithmetic::div_mod::lemma_mod_bound(num / (unit as int), pow as int);
    }
    let scaled_wide: u128 = ((size as u128) * (pow as u128) + (unit / 2) as u128) / (unit as u128);
    let scaled: u64 = (scaled_wide / (pow as u128)) as u64;
    let frac: u64 = (scaled_wide % (pow as u128)) as u64;
    let mut s = u64_to_string(scaled);
    s.append(".");
    let tail = u64_to_string_padded(frac, decimals);
    s.append(tail.as_str());
    s
}

} // verus!
