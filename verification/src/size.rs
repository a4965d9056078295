//! Size labels in binary units with one decimal.
//!
//! A byte count is shown the way a reading in double precision shows it: the
//! count is taken to the nearest value with a 53-bit significand, divided by
//! the unit, and written with one decimal. Both roundings go to the nearest
//! candidate and, on a tie, to the even one. Counts below 2^53 are not
//! changed by the first rounding.

use vstd::prelude::*;
use vstd::arithmetic::div_mod::lemma_fundamental_div_mod;
use crate::text::{decimal, digit_char, signed_decimal, append_decimal, append_signed_decimal, digit_text};

verus! {

/// Bytes in a kilobyte.
pub const KB: i64 = 1024;

/// Bytes in a megabyte.
pub const MB: i64 = 1_048_576;

/// Bytes in a gigabyte.
pub const GB: i64 = 1_073_741_824;

/// First count that needs more than 53 bits.
pub const SIGNIFICAND_LIMIT: u128 = 0x20_0000_0000_0000;

/// `n / d` rounded to the nearest integer, a tie going to the even one.
pub open spec fn round_half_even(n: nat, d: nat) -> nat
    recommends
        d > 0,
{
    let q = n / d;
    let r = n % d;
    if 2 * r > d || (2 * r == d && q % 2 == 1) {
        q + 1
    } else {
        q
    }
}

/// Distance between neighbouring values with a 53-bit significand at `n`.
pub open spec fn significand_step(n: nat) -> nat
    decreases n,
{
    if n < SIGNIFICAND_LIMIT {
        1
    } else {
        2 * significand_step(n / 2)
    }
}

/// `n` taken to the nearest value with a 53-bit significand.
pub open spec fn nearest_representable(n: nat) -> nat {
    round_half_even(n, significand_step(n)) * significand_step(n)
}

/// Number of tenths of `unit` shown for `size` bytes.
pub open spec fn shown_tenths(size: nat, unit: nat) -> nat
    recommends
        unit > 0,
{
    round_half_even(nearest_representable(size) * 10, unit)
}

/// `size` in `unit` with one decimal, followed by `suffix`.
pub open spec fn scaled_label(size: nat, unit: nat, suffix: Seq<char>) -> Seq<char>
    recommends
        unit > 0,
{
    let tenths = shown_tenths(size, unit);
    decimal(tenths / 10) + seq!['.', digit_char(tenths % 10)] + suffix
}

/// The label of a byte count: gigabytes from 1024^3 on, megabytes from
/// 1024^2 on, kilobytes from 1024 on, each with one decimal; plain bytes
/// below that, negative counts included.
pub open spec fn size_label(size: int) -> Seq<char> {
    if size >= GB {
        scaled_label(size as nat, GB as nat, "GB"@)
    } else if size >= MB {
        scaled_label(size as nat, MB as nat, "MB"@)
    } else if size >= KB {
        scaled_label(size as nat, KB as nat, "KB"@)
    } else {
        signed_decimal(size) + "B"@
    }
}

/// Counts below 2^53 are representable as they are, so their label shows
/// the count itself in tenths of the unit, rounded once.
pub proof fn law_small_counts_are_exact(size: nat, unit: nat)
    requires
        size < SIGNIFICAND_LIMIT,
    ensures
        nearest_representable(size) == size,
        shown_tenths(size, unit) == round_half_even(size * 10, unit),
{
    assert(significand_step(size) == 1);
}

fn round_half_even_of(n: u128, d: u128) -> (rounded: u128)
    requires
        0 < d <= 0x1_0000_0000,
        n < 0x1_0000_0000_0000_0000_0000,
    ensures
        rounded == round_half_even(n as nat, d as nat),
        rounded <= n / d + 1,
{
    let q: u128 = n / d;
    let r: u128 = n % d;
    if 2 * r > d || (2 * r == d && q % 2 == 1) {
        q + 1
    } else {
        q
    }
}

fn significand_step_of(n: u128) -> (step: u128)
    requires
        n < 0x1_0000_0000_0000_0000,
    ensures
        step == significand_step(n as nat),
        step == 1 || step * 0x10_0000_0000_0000 <= n,
        1 <= step,
    decreases n,
{
    if n < SIGNIFICAND_LIMIT {
        1
    } else {
        2 * significand_step_of(n / 2)
    }
}

fn nearest_representable_of(n: u128) -> (nearest: u128)
    requires
        n < 0x1_0000_0000_0000_0000,
    ensures
        nearest == nearest_representable(n as nat),
        nearest <= n + 4096,
{
    let step: u128 = significand_step_of(n);
    let rounded: u128 = round_half_even_of(n, step);
    proof {
        lemma_fundamental_div_mod(n as int, step as int);
        assert(rounded * step <= n + step) by (nonlinear_arith)
            requires
                rounded <= n / step + 1,
                n == step * (n / step) + (n % step),
                0 <= n % step,
                0 < step,
        ;
    }
    rounded * step
}

fn scaled(size: u128, unit: u128, suffix: &str) -> (label: String)
    requires
        size < 0x1_0000_0000_0000_0000,
        0 < unit <= 0x1_0000_0000,
    ensures
        label@ == scaled_label(size as nat, unit as nat, suffix@),
{
    let nearest: u128 = nearest_representable_of(size);
    let tenths: u128 = round_half_even_of(nearest * 10, unit);
    let mut label = String::new();
    append_decimal(&mut label, tenths / 10);
    proof {
        reveal_strlit(".");
    }
    label.append(".");
    label.append(digit_text(tenths % 10));
    label.append(suffix);
    label
}

/// Writes a byte count as a label such as `"100B"`, `"1.5KB"` or `"2.0GB"`.
pub fn format_size(size: i64) -> (label: String)
    ensures
        label@ == size_label(size as int),
{
    if size >= GB {
        scaled(size as u128, GB as u128, "GB")
    } else if size >= MB {
        scaled(size as u128, MB as u128, "MB")
    } else if size >= KB {
        scaled(size as u128, KB as u128, "KB")
    } else {
        let mut label = String::new();
        append_signed_decimal(&mut label, size);
        label.append("B");
        label
    }
}

} // verus!
