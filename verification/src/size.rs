//! The arithmetic behind human-readable capacities: decimal units by truncating
//! division, binary units with two decimal places.
//!
//! A binary-unit figure is what a double-precision number prints as: the byte
//! count is first held to 53 significant bits, then divided by the unit, and the
//! quotient is rounded to hundredths, a tie going to the even neighbour.

use vstd::prelude::*;
use crate::text::{decimal, digit, digit_text, push_decimal};

verus! {

/// The bytes of a kilobyte.
pub const KB: u64 = 1_000;

/// The bytes of a megabyte.
pub const MB: u64 = 1_000_000;

/// The bytes of a gigabyte.
pub const GB: u64 = 1_000_000_000;

/// The bytes of a terabyte.
pub const TB: u64 = 1_000_000_000_000;

/// The bytes of a kibibyte, 1024.
pub const KIB: u64 = 1_024;

/// The bytes of a mebibyte, 1024 squared.
pub const MIB: u64 = 1_048_576;

/// The bytes of a gibibyte, 1024 to the third.
pub const GIB: u64 = 1_073_741_824;

/// The bytes of a tebibyte, 1024 to the fourth.
pub const TIB: u64 = 1_099_511_627_776;

/// `num / den` rounded to the nearest integer, a tie going to the even one.
pub open spec fn round_half_even(num: nat, den: nat) -> nat
    recommends
        den > 0,
{
    let q = num / den;
    let r = num % den;
    if 2 * r > den || (2 * r == den && q % 2 == 1) {
        q + 1
    } else {
        q
    }
}

/// The distance between neighbouring double-precision numbers at `n`: 1 below
/// 2^53, and doubling with every further bit.
pub open spec fn spacing(n: nat) -> nat {
    if n < 0x20_0000_0000_0000 {
        1
    } else if n < 0x40_0000_0000_0000 {
        2
    } else if n < 0x80_0000_0000_0000 {
        4
    } else if n < 0x100_0000_0000_0000 {
        8
    } else if n < 0x200_0000_0000_0000 {
        16
    } else if n < 0x400_0000_0000_0000 {
        32
    } else if n < 0x800_0000_0000_0000 {
        64
    } else if n < 0x1000_0000_0000_0000 {
        128
    } else if n < 0x2000_0000_0000_0000 {
        256
    } else if n < 0x4000_0000_0000_0000 {
        512
    } else if n < 0x8000_0000_0000_0000 {
        1024
    } else {
        2048
    }
}

/// The double-precision number nearest to `n`, a tie going to the one with the
/// even significand. Below 2^53 it is `n` itself.
pub open spec fn nearest_double(n: nat) -> nat {
    round_half_even(n, spacing(n)) * spacing(n)
}

/// `size / unit` in hundredths, as a double-precision quotient prints with two
/// decimal places.
pub open spec fn hundredths(size: nat, unit: nat) -> nat
    recommends
        unit > 0,
{
    round_half_even(nearest_double(size) * 100, unit)
}

/// A count of hundredths written with two decimal places: `1234` is `"12.34"`.
pub open spec fn two_places(h: nat) -> Seq<char> {
    decimal(h / 100) + "."@ + seq![digit((h % 100 / 10) as int), digit((h % 10) as int)]
}

/// The decimal-unit figure of `size`: whole units of the largest decimal unit
/// that `size` exceeds, the fraction dropped.
pub open spec fn decimal_figure(size: nat) -> Seq<char> {
    if size > TB {
        decimal(size / (TB as nat)) + " TB"@
    } else if size > GB {
        decimal(size / (GB as nat)) + " GB"@
    } else if size > MB {
        decimal(size / (MB as nat)) + " MB"@
    } else if size > KB {
        decimal(size / (KB as nat)) + " KB"@
    } else {
        decimal(size) + " B"@
    }
}

/// The binary-unit figure of `size`, in the largest binary unit that `size`
/// exceeds. Only meant for sizes above one kibibyte.
pub open spec fn binary_figure(size: nat) -> Seq<char>
    recommends
        size > KIB,
{
    if size > TIB {
        two_places(hundredths(size, TIB as nat)) + " TiB"@
    } else if size > GIB {
        two_places(hundredths(size, GIB as nat)) + " GiB"@
    } else if size > MIB {
        two_places(hundredths(size, MIB as nat)) + " MiB"@
    } else {
        two_places(hundredths(size, KIB as nat)) + " KiB"@
    }
}

/// The display text of a capacity of `size` bytes: the decimal figure, followed
/// above one kibibyte by `" / "` and the binary figure.
pub open spec fn formatted_size(size: nat) -> Seq<char> {
    if size > KIB {
        decimal_figure(size) + " / "@ + binary_figure(size)
    } else {
        decimal_figure(size)
    }
}

/// The spacing of double-precision numbers at `n`.
pub fn spacing_of(n: u64) -> (u: u64)
    ensures
        u == spacing(n as nat),
        0 < u <= 2048,
{
    if n < 0x20_0000_0000_0000 {
        1
    } else if n < 0x40_0000_0000_0000 {
        2
    } else if n < 0x80_0000_0000_0000 {
        4
    } else if n < 0x100_0000_0000_0000 {
        8
    } else if n < 0x200_0000_0000_0000 {
        16
    } else if n < 0x400_0000_0000_0000 {
        32
    } else if n < 0x800_0000_0000_0000 {
        64
    } else if n < 0x1000_0000_0000_0000 {
        128
    } else if n < 0x2000_0000_0000_0000 {
        256
    } else if n < 0x4000_0000_0000_0000 {
        512
    } else if n < 0x8000_0000_0000_0000 {
        1024
    } else {
        2048
    }
}

/// `num / den` rounded to the nearest integer, a tie going to the even one.
pub fn rounded_quotient(num: u128, den: u128) -> (q: u128)
    requires
        den > 0,
    ensures
        q == round_half_even(num as nat, den as nat),
        q <= num / den + 1,
{
    let q: u128 = num / den;
    let r: u128 = num % den;
    proof {
        vstd::arithmetic::div_mod::lemma_mod_bound(num as int, den as int);
    }
    // `r` against `den - r` is `2 * r` against `den`, without the doubling.
    if r > den - r || (r == den - r && q % 2 == 1) {
        proof {
            // Rounding up needs a remainder, so `den` is at least 2 and `q` at
            // most half of `num`.
            vstd::arithmetic::div_mod::lemma_div_is_ordered_by_denominator(
                num as int,
                2,
                den as int,
            );
        }
        q + 1
    } else {
        q
    }
}

/// Appends to `out` the quotient `size / unit` with two decimal places.
pub fn push_two_places(out: &mut String, size: u64, unit: u64)
    requires
        unit > 0,
    ensures
        final(out)@ == old(out)@ + two_places(hundredths(size as nat, unit as nat)),
{
    let step: u64 = spacing_of(size);
    let significand: u128 = rounded_quotient(size as u128, step as u128);
    proof {
        vstd::arithmetic::div_mod::lemma_div_is_ordered_by_denominator(
            size as int,
            1,
            step as int,
        );
    }
    assert(significand * (step as u128) <= 0x1_0000_0000_0000_0000 * 2048) by (nonlinear_arith)
        requires
            significand <= 0x1_0000_0000_0000_0000,
            step <= 2048,
    ;
    let held: u128 = significand * (step as u128);
    let h: u128 = rounded_quotient(held * 100, unit as u128);
    let ghost before = out@;
    push_decimal(out, h / 100);
    out.append(".");
    out.append(digit_text((h % 100 / 10) as u8));
    out.append(digit_text((h % 10) as u8));
    assert(out@ =~= before + two_places(h as nat));
}

/// The rounded quotient is the integer nearest to `num / den`: it lies no more
/// than half a `den` from `num`, and exactly half only where it is even.
pub proof fn lemma_round_half_even_is_nearest(num: nat, den: nat)
    requires
        den > 0,
    ensures
        ({
            let q = round_half_even(num, den) as int;
            &&& 2 * (q * den - num) <= den
            &&& 2 * (num - q * den) <= den
            &&& (2 * (q * den - num) == den || 2 * (num - q * den) == den) ==> q % 2 == 0
        }),
{
    let q0 = (num / den) as int;
    let r = (num % den) as int;
    vstd::arithmetic::div_mod::lemma_fundamental_div_mod(num as int, den as int);
    vstd::arithmetic::div_mod::lemma_mod_bound(num as int, den as int);
    assert(num == den * q0 + r);
    assert(den * q0 == q0 * den) by (nonlinear_arith);
    assert((q0 + 1) * den == q0 * den + den) by (nonlinear_arith);
}

/// Below 2^53 every byte count is a double-precision number: nothing is lost
/// before the division.
pub proof fn lemma_nearest_double_is_exact(n: nat)
    requires
        n < 0x20_0000_0000_0000,
    ensures
        nearest_double(n) == n,
{
}

} // verus!
