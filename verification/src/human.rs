//! Human-readable byte formatting.
//!
//! A byte count is scaled down by 1024 along the suffix ladder
//! bytes, KiB, MiB, GiB, TiB, PiB until the value is below 1024, and printed
//! with exactly two decimal places, a space, and the suffix. A value of
//! 1024 PiB or more keeps the last suffix and simply shows a number of
//! 1024 or more: that fallback is deliberate, not an overflow error.
//!
//! All arithmetic is exact: the scaled value is kept as the rational number
//! `bytes / 1024^level` and rounded once to hundredths, ties to even, which is
//! how a binary floating-point value with these (power-of-two) denominators
//! prints at two decimal places.

use vstd::prelude::*;
use vstd::string::StringExecFns;
use vstd::arithmetic::div_mod::{
    lemma_div_by_multiple,
    lemma_div_is_ordered,
    lemma_fundamental_div_mod,
    lemma_multiply_divide_lt,
};
use vstd::arithmetic::mul::lemma_mul_inequality;

verus! {

/// How many bytes one unit of level `k` stands for: `1024^k`.
pub open spec fn scale_divisor(k: nat) -> nat {
    if k == 0 {
        1
    } else if k == 1 {
        1024
    } else if k == 2 {
        1048576
    } else if k == 3 {
        1073741824
    } else if k == 4 {
        1099511627776
    } else {
        1125899906842624
    }
}

/// The ladder level a byte count is shown at: the first level whose scaled
/// value is below 1024, capped at the last level.
pub open spec fn scale_level(bytes: nat) -> nat {
    if bytes < 1024 {
        0
    } else if bytes < 1048576 {
        1
    } else if bytes < 1073741824 {
        2
    } else if bytes < 1099511627776 {
        3
    } else if bytes < 1125899906842624 {
        4
    } else {
        5
    }
}

/// The suffix printed for level `k`.
pub open spec fn suffix_str(k: nat) -> Seq<char> {
    if k == 0 {
        "bytes"@
    } else if k == 1 {
        "KiB"@
    } else if k == 2 {
        "MiB"@
    } else if k == 3 {
        "GiB"@
    } else if k == 4 {
        "TiB"@
    } else {
        "PiB"@
    }
}

/// `n / d` rounded to the nearest integer, ties to the even neighbour.
pub open spec fn round_half_even(n: nat, d: nat) -> nat
    recommends
        d > 0,
{
    let q = n / d;
    let r = n % d;
    if 2 * r < d {
        q
    } else if 2 * r > d {
        q + 1
    } else if q % 2 == 0 {
        q
    } else {
        q + 1
    }
}

/// The displayed number, in hundredths of a unit of the chosen level:
/// `100 * bytes / 1024^level`, rounded half to even.
pub open spec fn display_hundredths(bytes: nat) -> nat {
    round_half_even(100 * bytes, scale_divisor(scale_level(bytes)))
}

/// The numeric value embedded in the formatted string, normalized back to
/// hundredths of a byte: the displayed hundredths times the level's divisor.
pub open spec fn normalized_hundredths(bytes: nat) -> nat {
    display_hundredths(bytes) * scale_divisor(scale_level(bytes))
}

/// The digit character for `d < 10`.
pub open spec fn digit_char(d: nat) -> char {
    if d == 0 {
        '0'
    } else if d == 1 {
        '1'
    } else if d == 2 {
        '2'
    } else if d == 3 {
        '3'
    } else if d == 4 {
        '4'
    } else if d == 5 {
        '5'
    } else if d == 6 {
        '6'
    } else if d == 7 {
        '7'
    } else if d == 8 {
        '8'
    } else {
        '9'
    }
}

/// Decimal digits of `n`, most significant first, with no leading zeros
/// (a single `'0'` for zero).
pub open spec fn dec_str(n: nat) -> Seq<char>
    decreases n,
{
    if n < 10 {
        seq![digit_char(n)]
    } else {
        dec_str(n / 10) + seq![digit_char(n % 10)]
    }
}

/// Exactly two decimal digits for `n < 100`, with a leading zero.
pub open spec fn two_digit_str(n: nat) -> Seq<char> {
    seq![digit_char(n / 10), digit_char(n % 10)]
}

/// The complete formatted string for a byte count: scaled whole part, a dot,
/// exactly two decimal digits, a space, and the level's suffix.
pub open spec fn spec_human_readable(bytes: nat) -> Seq<char> {
    let h = display_hundredths(bytes);
    dec_str(h / 100) + "."@ + two_digit_str(h % 100) + " "@ + suffix_str(scale_level(bytes))
}

/// Append the single digit character for `d` to `s`.
fn push_digit(s: &mut String, d: u128)
    requires
        d < 10,
    ensures
        final(s)@ == old(s)@ + seq![digit_char(d as nat)],
{
    proof {
        reveal_strlit("0");
        reveal_strlit("1");
        reveal_strlit("2");
        reveal_strlit("3");
        reveal_strlit("4");
        reveal_strlit("5");
        reveal_strlit("6");
        reveal_strlit("7");
        reveal_strlit("8");
        reveal_strlit("9");
    }
    if d == 0 {
        s.append("0");
    } else if d == 1 {
        s.append("1");
    } else if d == 2 {
        s.append("2");
    } else if d == 3 {
        s.append("3");
    } else if d == 4 {
        s.append("4");
    } else if d == 5 {
        s.append("5");
    } else if d == 6 {
        s.append("6");
    } else if d == 7 {
        s.append("7");
    } else if d == 8 {
        s.append("8");
    } else {
        s.append("9");
    }
    proof {
        assert(s@ =~= old(s)@ + seq![digit_char(d as nat)]);
    }
}

/// Append the decimal digits of `n` to `s`.
fn push_decimal(s: &mut String, n: u128)
    ensures
        final(s)@ == old(s)@ + dec_str(n as nat),
    decreases n,
{
    if n < 10 {
        push_digit(s, n);
    } else {
        push_decimal(s, n / 10);
        push_digit(s, n % 10);
        proof {
            assert(s@ =~= old(s)@ + dec_str(n as nat));
        }
    }
}

/// The ladder level for a byte count, as executable code.
fn level_of(bytes: u128) -> (k: u8)
    ensures
        k as nat == scale_level(bytes as nat),
        k <= 5,
{
    if bytes < 1024 {
        0
    } else if bytes < 1048576 {
        1
    } else if bytes < 1073741824 {
        2
    } else if bytes < 1099511627776 {
        3
    } else if bytes < 1125899906842624 {
        4
    } else {
        5
    }
}

/// The divisor for a ladder level, as executable code.
fn divisor_of(k: u8) -> (d: u128)
    requires
        k <= 5,
    ensures
        d as nat == scale_divisor(k as nat),
        d >= 1,
{
    if k == 0 {
        1
    } else if k == 1 {
        1024
    } else if k == 2 {
        1048576
    } else if k == 3 {
        1073741824
    } else if k == 4 {
        1099511627776
    } else {
        1125899906842624
    }
}

/// Append the suffix for level `k` to `s`.
fn push_suffix(s: &mut String, k: u8)
    requires
        k <= 5,
    ensures
        final(s)@ == old(s)@ + suffix_str(k as nat),
{
    proof {
        reveal_strlit("bytes");
        reveal_strlit("KiB");
        reveal_strlit("MiB");
        reveal_strlit("GiB");
        reveal_strlit("TiB");
        reveal_strlit("PiB");
    }
    if k == 0 {
        s.append("bytes");
    } else if k == 1 {
        s.append("KiB");
    } else if k == 2 {
        s.append("MiB");
    } else if k == 3 {
        s.append("GiB");
    } else if k == 4 {
        s.append("TiB");
    } else {
        s.append("PiB");
    }
}

/// Format a byte count as a human-readable string: the count scaled into the
/// first ladder unit that keeps it below 1024 (or the last unit regardless),
/// with exactly two decimal places, a space, and the unit's suffix.
pub fn get_human_readable_bytes(bytes: usize) -> (s: String)
    ensures
        s@ == spec_human_readable(bytes as nat),
{
    let b: u128 = bytes as u128;
    let k = level_of(b);
    let d = divisor_of(k);
    let n: u128 = 100 * b;
    let q: u128 = n / d;
    let r: u128 = n % d;
    let h: u128 = if 2 * r < d {
        q
    } else if 2 * r > d {
        q + 1
    } else if q % 2 == 0 {
        q
    } else {
        q + 1
    };
    proof {
        assert(h as nat == display_hundredths(bytes as nat));
        reveal_strlit(".");
        reveal_strlit(" ");
    }
    let mut s = String::new();
    push_decimal(&mut s, h / 100);
    s.append(".");
    push_digit(&mut s, (h % 100) / 10);
    push_digit(&mut s, (h % 100) % 10);
    s.append(" ");
    push_suffix(&mut s, k);
    proof {
        assert(s@ =~= spec_human_readable(bytes as nat));
    }
    s
}

/// Rounding half to even lies between the floor of the quotient and the
/// floor plus one.
proof fn lemma_round_bounds(n: nat, d: nat)
    requires
        d > 0,
    ensures
        n / d <= round_half_even(n, d) <= n / d + 1,
{
}

/// Rounding half to even is monotone in the numerator.
proof fn lemma_round_monotone(n1: nat, n2: nat, d: nat)
    requires
        d > 0,
        n1 <= n2,
    ensures
        round_half_even(n1, d) <= round_half_even(n2, d),
{
    lemma_div_is_ordered(n1 as int, n2 as int, d as int);
    if n1 / d == n2 / d {
        lemma_fundamental_div_mod(n1 as int, d as int);
        lemma_fundamental_div_mod(n2 as int, d as int);
        assert(n1 % d <= n2 % d);
    }
}

/// The formatter is monotone: a larger byte count never formats to a string
/// whose embedded numeric value, normalized back to bytes, is smaller. The
/// comparison is over `normalized_hundredths`, the displayed number times its
/// unit, which is exactly the value a reader of the string recovers.
pub proof fn lemma_format_monotonic(a: nat, b: nat)
    requires
        a <= b,
    ensures
        normalized_hundredths(a) <= normalized_hundredths(b),
{
    let ka = scale_level(a);
    let kb = scale_level(b);
    let qa = scale_divisor(ka);
    let qb = scale_divisor(kb);
    let ha = display_hundredths(a);
    let hb = display_hundredths(b);
    if ka == kb {
        lemma_round_monotone(100 * a, 100 * b, qa);
        lemma_mul_inequality(ha as int, hb as int, qa as int);
    } else {
        assert(ka < kb);
        // At any level below the last, the scaled value is below 1024 units,
        // so the rounded hundredths stay at or below 102400.
        assert(100 * a < 102400 * qa);
        lemma_multiply_divide_lt((100 * a) as int, qa as int, 102400);
        lemma_round_bounds(100 * a, qa);
        assert(ha <= 102400);
        lemma_mul_inequality(ha as int, 102400, qa as int);
        // One whole step of the ladder separates the two levels' units.
        assert(1024 * qa <= qb);
        assert(102400 * qa <= 100 * qb);
        // At any level above the first, the scaled value is at least one
        // unit, so the rounded hundredths are at least 100.
        assert(qb <= b);
        lemma_div_is_ordered((100 * qb) as int, (100 * b) as int, qb as int);
        lemma_div_by_multiple(100, qb as int);
        assert((100 * b) / qb >= 100);
        lemma_round_bounds(100 * b, qb);
        assert(hb >= 100);
        lemma_mul_inequality(100, hb as int, qb as int);
    }
}

} // verus!
