//! Whole-number currency formatting: digits grouped in threes from the
//! right, separated by single spaces (600000 becomes "600 000").
//!
//! The formatter always renders a magnitude; a caller that wants a sign on a
//! negative line amount prefixes it itself.

use vstd::prelude::*;
use vstd::math::abs;
use vstd::string::StringExecFns;

verus! {

/// The character for one decimal digit.
pub open spec fn digit_char(d: int) -> char
    recommends
        0 <= d < 10,
{
    if d == 0 {
        '0'
    } else if d == 1 {
        '1'
    } else if d == 2 {
        '2'
    } else if d == 3 {
        '3'
    } else if d == 4 {
        '4'
    } else if d == 5 {
        '5'
    } else if d == 6 {
        '6'
    } else if d == 7 {
        '7'
    } else if d == 8 {
        '8'
    } else {
        '9'
    }
}

/// The decimal digits of `m`, most significant first, without separators.
pub open spec fn decimal_digits(m: nat) -> Seq<char>
    decreases m,
{
    if m < 10 {
        seq![digit_char(m as int)]
    } else {
        decimal_digits((m / 10) as nat).push(digit_char((m % 10) as int))
    }
}

/// Exactly three digits, zero-padded: a group that follows a separator.
pub open spec fn padded_group(m: nat) -> Seq<char>
    recommends
        m < 1000,
{
    seq![
        digit_char((m / 100) as int),
        digit_char(((m / 10) % 10) as int),
        digit_char((m % 10) as int),
    ]
}

/// The digits of `m` grouped in threes from the right, space-separated.
pub open spec fn grouped_digits(m: nat) -> Seq<char>
    decreases m,
{
    if m < 1000 {
        decimal_digits(m)
    } else {
        grouped_digits((m / 1000) as nat) + seq![' '] + padded_group((m % 1000) as nat)
    }
}

/// What the currency formatter prints for `amount`: its magnitude in the
/// grouped form above.
pub open spec fn currency_display(amount: int) -> Seq<char> {
    grouped_digits(abs(amount))
}

/// The one-character string for one digit.
fn digit_str(d: u64) -> (s: &'static str)
    requires
        d < 10,
    ensures
        s@ == seq![digit_char(d as int)],
{
    let s: &'static str = if d == 0 {
        "0"
    } else if d == 1 {
        "1"
    } else if d == 2 {
        "2"
    } else if d == 3 {
        "3"
    } else if d == 4 {
        "4"
    } else if d == 5 {
        "5"
    } else if d == 6 {
        "6"
    } else if d == 7 {
        "7"
    } else if d == 8 {
        "8"
    } else {
        "9"
    };
    proof {
        reveal_strlit("0");
        reveal_strlit("1");
        reveal_strlit("2");
        reveal_strlit("3");
        reveal_strlit("4");
        reveal_strlit("5");
        reveal_strlit("6");
        reveal_strlit("7");
        reveal_strlit("8");
        reveal_strlit("9");
        assert(s@ =~= seq![digit_char(d as int)]);
    }
    s
}

/// The plain decimal digits of `m`.
fn format_digits(m: u64) -> (s: String)
    ensures
        s@ == decimal_digits(m as nat),
    decreases m,
{
    if m < 10 {
        digit_str(m).to_owned()
    } else {
        let mut s = format_digits(m / 10);
        s.append(digit_str(m % 10));
        proof {
            assert(s@ =~= decimal_digits(m as nat));
        }
        s
    }
}

/// One zero-padded three-digit group.
fn format_padded_group(m: u64) -> (s: String)
    requires
        m < 1000,
    ensures
        s@ == padded_group(m as nat),
{
    let mut s = digit_str(m / 100).to_owned();
    s.append(digit_str((m / 10) % 10));
    s.append(digit_str(m % 10));
    proof {
        assert(s@ =~= padded_group(m as nat));
    }
    s
}

/// The digits of `m`, grouped in threes from the right.
pub fn format_grouped(m: u64) -> (s: String)
    ensures
        s@ == grouped_digits(m as nat),
    decreases m,
{
    if m < 1000 {
        format_digits(m)
    } else {
        let mut s = format_grouped(m / 1000);
        s.append(" ");
        let tail = format_padded_group(m % 1000);
        s.append(tail.as_str());
        proof {
            reveal_strlit(" ");
            assert(s@ =~= grouped_digits(m as nat));
        }
        s
    }
}

/// The grouped magnitude of a signed whole-krone amount.
pub fn format_magnitude(amount: i64) -> (s: String)
    ensures
        s@ == currency_display(amount as int),
{
    let magnitude: u64 = if amount < 0 {
        (-(amount as i128)) as u64
    } else {
        amount as u64
    };
    proof {
        assert(magnitude == abs(amount as int));
    }
    format_grouped(magnitude)
}

} // verus!
