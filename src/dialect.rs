//! The placeholder dialect: numbered `$n` parameters or positional `?` ones.
use vstd::prelude::*;

verus! {

/// How a bound parameter is written in a statement.
#[derive(Clone, Copy, Debug, PartialEq, Eq)]
pub enum Dialect {
    /// `$1`, `$2`, ...: the parameter's 1-based position.
    Numbered,
    /// `?` for every parameter.
    Positional,
}

/// The character of a decimal digit.
pub open spec fn digit_char(d: nat) -> char {
    if d == 0 {
        '0'
    } else if d == 1 {
        '1'
    } else if d == 2 {
        '2'
    } else if d == 3 {
        '3'
    } else if d == 4 {
        '4'
    } else if d == 5 {
        '5'
    } else if d == 6 {
        '6'
    } else if d == 7 {
        '7'
    } else if d == 8 {
        '8'
    } else {
        '9'
    }
}

/// The decimal numeral of `n`, without leading zeros.
pub open spec fn decimal(n: nat) -> Seq<char>
    decreases n,
{
    if n < 10 {
        seq![digit_char(n)]
    } else {
        decimal(n / 10).push(digit_char(n % 10))
    }
}

/// The placeholder for the parameter at 1-based position `index`.
pub open spec fn placeholder_text(dialect: Dialect, index: nat) -> Seq<char> {
    match dialect {
        Dialect::Numbered => seq!['$'] + decimal(index),
        Dialect::Positional => seq!['?'],
    }
}

/// The placeholders of parameters `1..=n`, in order.
pub open spec fn placeholders(dialect: Dialect, n: nat) -> Seq<Seq<char>> {
    Seq::new(n, |i: int| placeholder_text(dialect, (i + 1) as nat))
}

fn digit_str(d: usize) -> (r: &'static str)
    requires
        d < 10,
    ensures
        r@ == seq![digit_char(d as nat)],
{
    proof {
        reveal_strlit("0");
        reveal_strlit("1");
        reveal_strlit("2");
        reveal_strlit("3");
        reveal_strlit("4");
        reveal_strlit("5");
        reveal_strlit("6");
        reveal_strlit("7");
        reveal_strlit("8");
        reveal_strlit("9");
    }
    if d == 0 {
        "0"
    } else if d == 1 {
        "1"
    } else if d == 2 {
        "2"
    } else if d == 3 {
        "3"
    } else if d == 4 {
        "4"
    } else if d == 5 {
        "5"
    } else if d == 6 {
        "6"
    } else if d == 7 {
        "7"
    } else if d == 8 {
        "8"
    } else {
        "9"
    }
}

/// Appends the decimal numeral of `n` to `out`.
pub fn push_decimal(out: &mut String, n: usize)
    ensures
        final(out)@ == old(out)@ + decimal(n as nat),
    decreases n,
{
    if n >= 10 {
        push_decimal(out, n / 10);
    }
    out.append(digit_str(n % 10));
    assert(final(out)@ =~= old(out)@ + decimal(n as nat));
}

/// Appends the placeholder for the parameter at 1-based position `index`.
pub fn push_placeholder(out: &mut String, dialect: Dialect, index: usize)
    ensures
        final(out)@ == old(out)@ + placeholder_text(dialect, index as nat),
{
    proof {
        reveal_strlit("$");
        reveal_strlit("?");
    }
    match dialect {
        Dialect::Numbered => {
            out.append("$");
            push_decimal(out, index);
            assert(final(out)@ =~= old(out)@ + placeholder_text(dialect, index as nat));
        },
        Dialect::Positional => {
            out.append("?");
        },
    }
}

/// The placeholder for the parameter at 1-based position `index`.
pub fn placeholder(dialect: Dialect, index: usize) -> (r: String)
    ensures
        r@ == placeholder_text(dialect, index as nat),
{
    let mut r = String::new();
    push_placeholder(&mut r, dialect, index);
    assert(r@ =~= placeholder_text(dialect, index as nat));
    r
}

} // verus!
