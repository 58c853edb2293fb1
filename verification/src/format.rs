//! The text form of a date and time: `year-month-dayThour:minute:secondZ`,
//! each field in decimal without padding, as in `2019-3-5T8:30:2Z`.

use vstd::prelude::*;
use vstd::string::*;
use crate::datetime::RTCDateTime;

verus! {

/// The character of the decimal digit `d`.
pub open spec fn digit_char(d: int) -> char {
    if d == 0 {
        '0'
    } else if d == 1 {
        '1'
    } else if d == 2 {
        '2'
    } else if d == 3 {
        '3'
    } else if d == 4 {
        '4'
    } else if d == 5 {
        '5'
    } else if d == 6 {
        '6'
    } else if d == 7 {
        '7'
    } else if d == 8 {
        '8'
    } else {
        '9'
    }
}

/// The decimal numeral of `n`: its digits from the most significant down,
/// without leading zeros, and `0` for zero.
pub open spec fn decimal(n: nat) -> Seq<char>
    decreases n,
{
    if n < 10 {
        seq![digit_char(n as int)]
    } else {
        decimal(n / 10).push(digit_char((n % 10) as int))
    }
}

impl RTCDateTime {
    /// The text form of the value.
    pub open spec fn text(self) -> Seq<char> {
        decimal(self.year as nat) + seq!['-'] + decimal(self.month as nat) + seq!['-'] + decimal(
            self.day as nat,
        ) + seq!['T'] + decimal(self.hour as nat) + seq![':'] + decimal(self.minute as nat)
            + seq![':'] + decimal(self.second as nat) + seq!['Z']
    }

    /// Write the value as text: the fields in decimal without padding,
    /// `-` between the parts of the date, `T` before the time, `:` between
    /// its parts, and `Z` at the end.
    pub fn to_string(&self) -> (text: String)
        ensures
            text@ == self.text(),
    {
        let mut text = String::new();
        push_decimal(&mut text, self.year);
        push_mark(&mut text, 0);
        push_decimal(&mut text, self.month as usize);
        push_mark(&mut text, 0);
        push_decimal(&mut text, self.day as usize);
        push_mark(&mut text, 1);
        push_decimal(&mut text, self.hour as usize);
        push_mark(&mut text, 2);
        push_decimal(&mut text, self.minute as usize);
        push_mark(&mut text, 2);
        push_decimal(&mut text, self.second as usize);
        push_mark(&mut text, 3);
        text
    }
}

/// The mark of each kind: between the parts of the date, before the time,
/// between the parts of the time, and at the end.
spec fn mark_char(kind: int) -> char {
    if kind == 0 {
        '-'
    } else if kind == 1 {
        'T'
    } else if kind == 2 {
        ':'
    } else {
        'Z'
    }
}

/// Append the mark of the given kind.
fn push_mark(out: &mut String, kind: u8)
    ensures
        final(out)@ == old(out)@ + seq![mark_char(kind as int)],
{
    proof {
        reveal_strlit("-");
        reveal_strlit("T");
        reveal_strlit(":");
        reveal_strlit("Z");
    }
    let mark = if kind == 0 {
        "-"
    } else if kind == 1 {
        "T"
    } else if kind == 2 {
        ":"
    } else {
        "Z"
    };
    assert(mark@ =~= seq![mark_char(kind as int)]);
    out.append(mark);
}

/// The text of one decimal digit.
fn digit_text(d: u8) -> (text: &'static str)
    requires
        d < 10,
    ensures
        text@ == seq![digit_char(d as int)],
{
    proof {
        reveal_strlit("0");
        reveal_strlit("1");
        reveal_strlit("2");
        reveal_strlit("3");
        reveal_strlit("4");
        reveal_strlit("5");
        reveal_strlit("6");
        reveal_strlit("7");
        reveal_strlit("8");
        reveal_strlit("9");
    }
    let text = match d {
        0 => "0",
        1 => "1",
        2 => "2",
        3 => "3",
        4 => "4",
        5 => "5",
        6 => "6",
        7 => "7",
        8 => "8",
        _ => "9",
    };
    assert(text@ =~= seq![digit_char(d as int)]);
    text
}

/// Append the decimal numeral of `n`.
fn push_decimal(out: &mut String, n: usize)
    ensures
        final(out)@ == old(out)@ + decimal(n as nat),
    decreases n,
{
    if n >= 10 {
        push_decimal(out, n / 10);
    }
    let ghost before = out@;
    out.append(digit_text((n % 10) as u8));
    proof {
        if n >= 10 {
            assert(before == old(out)@ + decimal((n / 10) as nat));
            assert(out@ =~= old(out)@ + decimal((n / 10) as nat).push(
                digit_char((n % 10) as int),
            ));
        }
    }
}

} // verus!
