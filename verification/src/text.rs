//! Small text builders: decimal numbers, percentages and runs of one character.

use vstd::prelude::*;

verus! {

/// The character of a decimal digit.
pub open spec fn digit_char(d: int) -> char {
    if d == 0 {
        '0'
    } else if d == 1 {
        '1'
    } else if d == 2 {
        '2'
    } else if d == 3 {
        '3'
    } else if d == 4 {
        '4'
    } else if d == 5 {
        '5'
    } else if d == 6 {
        '6'
    } else if d == 7 {
        '7'
    } else if d == 8 {
        '8'
    } else {
        '9'
    }
}

/// `n` written in decimal, without leading zeros.
pub open spec fn decimal(n: nat) -> Seq<char>
    decreases n,
{
    if n < 10 {
        seq![digit_char(n as int)]
    } else {
        decimal(n / 10).push(digit_char((n % 10) as int))
    }
}

/// A usage given in hundredths of a percent, rounded half up to tenths.
pub open spec fn rounded_tenths(hundredths: nat) -> nat {
    (hundredths + 5) / 10
}

/// A usage given in hundredths of a percent, written with one decimal and a
/// percent sign.
pub open spec fn percent(hundredths: nat) -> Seq<char> {
    let tenths = rounded_tenths(hundredths);
    decimal(tenths / 10).push('.').push(digit_char((tenths % 10) as int)).push('%')
}

/// `count` times the character `c`.
pub open spec fn run_of(c: char, count: nat) -> Seq<char> {
    Seq::new(count, |i: int| c)
}

fn digit_text(d: u64) -> (text: &'static str)
    requires
        d < 10,
    ensures
        text@ == seq![digit_char(d as int)],
{
    proof {
        reveal_strlit("0");
        reveal_strlit("1");
        reveal_strlit("2");
        reveal_strlit("3");
        reveal_strlit("4");
        reveal_strlit("5");
        reveal_strlit("6");
        reveal_strlit("7");
        reveal_strlit("8");
        reveal_strlit("9");
    }
    let text = if d == 0 {
        "0"
    } else if d == 1 {
        "1"
    } else if d == 2 {
        "2"
    } else if d == 3 {
        "3"
    } else if d == 4 {
        "4"
    } else if d == 5 {
        "5"
    } else if d == 6 {
        "6"
    } else if d == 7 {
        "7"
    } else if d == 8 {
        "8"
    } else {
        "9"
    };
    assert(text@ =~= seq![digit_char(d as int)]);
    text
}

/// Writes `n` in decimal.
pub fn decimal_string(n: u64) -> (text: String)
    ensures
        text@ == decimal(n as nat),
    decreases n,
{
    if n < 10 {
        String::from_str(digit_text(n))
    } else {
        let mut text = decimal_string(n / 10);
        text.append(digit_text(n % 10));
        assert(text@ =~= decimal(n as nat));
        text
    }
}

/// Writes a usage given in hundredths of a percent with one decimal and a
/// percent sign, rounding half up.
pub fn percent_string(hundredths: u32) -> (text: String)
    ensures
        text@ == percent(hundredths as nat),
{
    let tenths: u64 = (hundredths as u64 + 5) / 10;
    let mut text = decimal_string(tenths / 10);
    proof {
        reveal_strlit(".");
        reveal_strlit("%");
    }
    text.append(".");
    text.append(digit_text(tenths % 10));
    text.append("%");
    assert(text@ =~= percent(hundredths as nat));
    text
}

/// Appends `count` box-drawing horizontals to `text`.
pub fn push_horizontals(text: &mut String, count: usize)
    ensures
        final(text)@ == old(text)@ + run_of('─', count as nat),
{
    let mut i: usize = 0;
    proof {
        reveal_strlit("─");
    }
    assert(text@ =~= old(text)@ + run_of('─', 0));
    while i < count
        invariant
            i <= count,
            text@ == old(text)@ + run_of('─', i as nat),
            "─"@ == seq!['─'],
        decreases count - i,
    {
        text.append("─");
        i = i + 1;
        assert(text@ =~= old(text)@ + run_of('─', i as nat));
    }
}

} // verus!
