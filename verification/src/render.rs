//! Exact decimal rendering of fixed-point values.
//!
//! A stored value `v` stands for the rational `v / FIXED_SCALE`. Rendering it
//! with `p` decimal places scales the magnitude to `p` decimal digits of
//! fraction, rounds to nearest (ties to the even quotient, as the standard
//! floating-point formatter does), and prints sign, integer part, a point,
//! and exactly `p` fractional digits.

use vstd::arithmetic::div_mod::{
    lemma_div_is_ordered, lemma_fundamental_div_mod, lemma_fundamental_div_mod_converse_div,
};
use vstd::arithmetic::mul::lemma_mul_upper_bound;
use vstd::math::abs;
use vstd::prelude::*;

use crate::position::FIXED_SCALE;

verus! {

/// The decimal digit character for `d` (0 through 9).
pub open spec fn digit_char(d: nat) -> char {
    if d == 0 {
        '0'
    } else if d == 1 {
        '1'
    } else if d == 2 {
        '2'
    } else if d == 3 {
        '3'
    } else if d == 4 {
        '4'
    } else if d == 5 {
        '5'
    } else if d == 6 {
        '6'
    } else if d == 7 {
        '7'
    } else if d == 8 {
        '8'
    } else {
        '9'
    }
}

/// The ordinary decimal rendering of `n`, most significant digit first, with
/// no leading zeros (except for `n == 0` itself).
pub open spec fn dec_str(n: nat) -> Seq<char>
    decreases n,
{
    if n < 10 {
        seq![digit_char(n)]
    } else {
        dec_str(n / 10).push(digit_char(n % 10))
    }
}

/// The last `p` decimal digits of `f`, zero-padded on the left to exactly
/// `p` characters.
pub open spec fn frac_digits(f: nat, p: nat) -> Seq<char>
    decreases p,
{
    if p == 0 {
        Seq::empty()
    } else {
        frac_digits(f / 10, (p - 1) as nat).push(digit_char(f % 10))
    }
}

/// The `p`-th power of ten.
pub open spec fn pow10(p: nat) -> nat
    decreases p,
{
    if p == 0 {
        1
    } else {
        10 * pow10((p - 1) as nat)
    }
}

/// `num / den` rounded to the nearest integer, ties going to the even
/// quotient; `den` must be positive and even.
pub open spec fn round_half_even(num: nat, den: nat) -> nat
    recommends
        den > 0 && den % 2 == 0,
{
    let q = num / den;
    let r = num % den;
    if r > den / 2 {
        q + 1
    } else if r < den / 2 {
        q
    } else if q % 2 == 0 {
        q
    } else {
        q + 1
    }
}

/// The decimal rendering of the non-negative fixed-point magnitude `m` with
/// exactly `p` digits after the point.
pub open spec fn fixed_mag_str(m: nat, p: nat) -> Seq<char> {
    let scaled = round_half_even(m * pow10(p), FIXED_SCALE as nat);
    dec_str(scaled / pow10(p)) + seq!['.'] + frac_digits(scaled % pow10(p), p)
}

/// The decimal rendering of the fixed-point value `v` with exactly `p`
/// digits after the point: a leading minus sign for negative values, then
/// the rendering of the magnitude.
pub open spec fn fixed_str(v: int, p: nat) -> Seq<char> {
    if v < 0 {
        seq!['-'] + fixed_mag_str(abs(v), p)
    } else {
        fixed_mag_str(v as nat, p)
    }
}

/// The decimal digit character for `d` (0 through 9), as executable code.
fn digit_to_char(d: u64) -> (c: char)
    requires
        d < 10,
    ensures
        c == digit_char(d as nat),
{
    match d {
        0 => '0',
        1 => '1',
        2 => '2',
        3 => '3',
        4 => '4',
        5 => '5',
        6 => '6',
        7 => '7',
        8 => '8',
        _ => '9',
    }
}

/// Appends the decimal rendering of `n` to `out`.
fn push_dec(out: &mut Vec<char>, n: u64)
    ensures
        final(out)@ == old(out)@ + dec_str(n as nat),
    decreases n,
{
    if n >= 10 {
        push_dec(out, n / 10);
    }
    out.push(digit_to_char(n % 10));
    proof {
        assert(out@ =~= old(out)@ + dec_str(n as nat));
    }
}

/// Appends the last `p` decimal digits of `f` to `out`, zero-padded on the
/// left to exactly `p` characters.
fn push_frac(out: &mut Vec<char>, f: u64, p: u64)
    ensures
        final(out)@ == old(out)@ + frac_digits(f as nat, p as nat),
    decreases p,
{
    if p > 0 {
        push_frac(out, f / 10, p - 1);
        out.push(digit_to_char(f % 10));
    }
    proof {
        assert(out@ =~= old(out)@ + frac_digits(f as nat, p as nat));
    }
}

/// Appends the rendering of the fixed-point value `v` with exactly `p`
/// decimal places to `out`. `p` is 4 for a coordinate, 2 for a feed rate.
pub fn push_fixed(out: &mut Vec<char>, v: i64, p: u64)
    requires
        p == 2 || p == 4,
    ensures
        final(out)@ == old(out)@ + fixed_str(v as int, p as nat),
{
    let neg: bool = v < 0;
    let m: u64 = if v < 0 {
        (-(v as i128)) as u64
    } else {
        v as u64
    };
    if neg {
        out.push('-');
    }
    let pow: u64 = if p == 2 {
        100
    } else {
        10000
    };
    proof {
        assert(pow10(0) == 1);
        assert(pow10(1) == 10);
        assert(pow10(2) == 100);
        assert(pow10(3) == 1000);
        assert(pow10(4) == 10000);
        assert(m == abs(v as int));
        lemma_mul_upper_bound(m as int, 0x8000000000000000, pow as int, 10000);
    }
    let num: u128 = (m as u128) * (pow as u128);
    let q: u128 = num / (FIXED_SCALE as u128);
    let r: u128 = num % (FIXED_SCALE as u128);
    proof {
        lemma_fundamental_div_mod(num as int, FIXED_SCALE as int);
        lemma_div_is_ordered(num as int, 92233720368547758080000, FIXED_SCALE as int);
        lemma_fundamental_div_mod_converse_div(
            92233720368547758080000,
            FIXED_SCALE as int,
            1407374883553280000,
            0,
        );
    }
    let rounded: u128 = if r > 32768 || (r == 32768 && q % 2 == 1) {
        q + 1
    } else {
        q
    };
    proof {
        assert(rounded == round_half_even((m * pow) as nat, FIXED_SCALE as nat));
        assert(rounded <= 0xffffffffffffffff);
    }
    let scaled: u64 = rounded as u64;
    push_dec(out, scaled / pow);
    out.push('.');
    push_frac(out, scaled % pow, p);
    proof {
        assert(out@ =~= old(out)@ + fixed_str(v as int, p as nat));
    }
}

/// Relies on `String`'s `FromIterator` implementation: collecting characters
/// yields the string holding exactly those characters in order.
#[verifier::external_body]
pub fn chars_to_string(cs: &Vec<char>) -> (s: String)
    ensures
        s@ == cs@,
{
    cs.iter().collect()
}

} // verus!
