use vstd::prelude::*;
use crate::span::Span;

verus! {

/// The character of a decimal digit `d < 10`.
pub open spec fn digit_char(d: nat) -> char {
    ((d + 48) as u8) as char
}

/// Decimal text of `n`, without leading zeros (`"0"` for zero).
pub open spec fn decimal(n: nat) -> Seq<char>
    decreases n,
{
    if n < 10 {
        seq![digit_char(n)]
    } else {
        decimal(n / 10).push(digit_char(n % 10))
    }
}

/// Decimal text of `n`, padded with a leading zero to at least two digits.
pub open spec fn two_digits(n: nat) -> Seq<char> {
    if n < 10 {
        seq!['0', digit_char(n)]
    } else {
        decimal(n)
    }
}

/// `MM:SS` text of a count of seconds; the minutes widen past two digits
/// when they need to.
pub open spec fn clock_text(secs: nat) -> Seq<char> {
    two_digits(secs / 60) + seq![':'] + two_digits(secs % 60)
}

/// Whole seconds left of a phase of length `total` after `elapsed`:
/// each side is first cut to whole seconds, and the difference is never
/// below zero.
pub open spec fn remaining_secs(elapsed: Span, total: Span) -> nat {
    if elapsed.whole_secs() < total.whole_secs() {
        (total.whole_secs() - elapsed.whole_secs()) as nat
    } else {
        0
    }
}

/// The countdown text of a phase of length `total` after `elapsed`.
pub open spec fn countdown_text(elapsed: Span, total: Span) -> Seq<char> {
    clock_text(remaining_secs(elapsed, total))
}

/// The one-character text of the digit `d`.
fn digit_str(d: u128) -> (r: &'static str)
    requires
        d < 10,
    ensures
        r@ == seq![digit_char(d as nat)],
{
    proof {
        reveal_strlit("0");
        reveal_strlit("1");
        reveal_strlit("2");
        reveal_strlit("3");
        reveal_strlit("4");
        reveal_strlit("5");
        reveal_strlit("6");
        reveal_strlit("7");
        reveal_strlit("8");
        reveal_strlit("9");
    }
    let r = if d == 0 {
        "0"
    } else if d == 1 {
        "1"
    } else if d == 2 {
        "2"
    } else if d == 3 {
        "3"
    } else if d == 4 {
        "4"
    } else if d == 5 {
        "5"
    } else if d == 6 {
        "6"
    } else if d == 7 {
        "7"
    } else if d == 8 {
        "8"
    } else {
        "9"
    };
    assert(r@ =~= seq![digit_char(d as nat)]);
    r
}

/// Appends the decimal text of `n` to `out`.
fn push_decimal(out: &mut String, n: u128)
    ensures
        final(out)@ == old(out)@ + decimal(n as nat),
    decreases n,
{
    if n >= 10 {
        push_decimal(out, n / 10);
    }
    out.append(digit_str(n % 10));
    assert(final(out)@ =~= old(out)@ + decimal(n as nat));
}

/// Appends `n` to `out`, padded to at least two digits.
fn push_two_digits(out: &mut String, n: u128)
    ensures
        final(out)@ == old(out)@ + two_digits(n as nat),
{
    if n < 10 {
        proof {
            reveal_strlit("0");
        }
        out.append("0");
        out.append(digit_str(n));
        assert(final(out)@ =~= old(out)@ + two_digits(n as nat));
    } else {
        push_decimal(out, n);
    }
}

/// The `MM:SS` countdown of a phase of length `stagetime` after `elapsed`.
///
/// Both spans are cut to whole seconds before the difference is taken, and
/// a phase that has run its length shows `00:00`.
pub fn format_duration(elapsed: Span, stagetime: Span) -> (r: String)
    ensures
        r@ == countdown_text(elapsed, stagetime),
{
    let total = stagetime.as_secs();
    let spent = elapsed.as_secs();
    let remaining: u128 = if spent < total { total - spent } else { 0 };
    let mut out = String::new();
    push_two_digits(&mut out, remaining / 60);
    proof {
        reveal_strlit(":");
    }
    out.append(":");
    push_two_digits(&mut out, remaining % 60);
    assert(out@ =~= countdown_text(elapsed, stagetime));
    out
}

} // verus!
