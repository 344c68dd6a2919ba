//! The consumer's log line: a received counter value rendered as
//! `Count is N` followed by a carriage return and line feed, appended to the
//! log text.

use vstd::prelude::*;
use vstd::string::StringExecFns;

verus! {

/// The decimal digit character for `d` (meaningful for `d < 10`).
pub open spec fn digit_char(d: nat) -> char {
    if d == 0 {
        '0'
    } else if d == 1 {
        '1'
    } else if d == 2 {
        '2'
    } else if d == 3 {
        '3'
    } else if d == 4 {
        '4'
    } else if d == 5 {
        '5'
    } else if d == 6 {
        '6'
    } else if d == 7 {
        '7'
    } else if d == 8 {
        '8'
    } else {
        '9'
    }
}

/// The decimal digits of `n`, most significant first, with no leading zero
/// except for `n == 0` itself.
pub open spec fn decimal_digits(n: nat) -> Seq<char>
    decreases n,
{
    if n < 10 {
        seq![digit_char(n)]
    } else {
        decimal_digits(n / 10).push(digit_char(n % 10))
    }
}

/// The full log line for a received value: `Count is N\r\n`.
pub open spec fn count_line(n: nat) -> Seq<char> {
    "Count is "@ + decimal_digits(n) + "\r\n"@
}

fn digit_str(d: u32) -> (s: &'static str)
    requires
        d < 10,
    ensures
        s@ == seq![digit_char(d as nat)],
{
    proof {
        reveal_strlit("0");
        reveal_strlit("1");
        reveal_strlit("2");
        reveal_strlit("3");
        reveal_strlit("4");
        reveal_strlit("5");
        reveal_strlit("6");
        reveal_strlit("7");
        reveal_strlit("8");
        reveal_strlit("9");
    }
    match d {
        0 => "0",
        1 => "1",
        2 => "2",
        3 => "3",
        4 => "4",
        5 => "5",
        6 => "6",
        7 => "7",
        8 => "8",
        _ => "9",
    }
}

/// Render `n` in decimal, most significant digit first.
pub fn decimal_string(n: u32) -> (s: String)
    ensures
        s@ == decimal_digits(n as nat),
    decreases n,
{
    if n < 10 {
        String::from_str(digit_str(n))
    } else {
        proof {
            assert(n / 10 < n) by (nonlinear_arith)
                requires n >= 10;
        }
        let front = decimal_string(n / 10);
        let s = front.concat(digit_str(n % 10));
        proof {
            assert(decimal_digits((n / 10) as nat).push(digit_char((n % 10) as nat))
                =~= decimal_digits((n / 10) as nat) + seq![digit_char((n % 10) as nat)]);
        }
        s
    }
}

/// Render the log line `Count is N\r\n` for a received value.
pub fn render_count_line(n: u32) -> (s: String)
    ensures
        s@ == count_line(n as nat),
{
    let mut s = String::from_str("Count is ");
    let digits = decimal_string(n);
    s.append(digits.as_str());
    s.append("\r\n");
    s
}

/// Append the log line for a received value to the existing log text; the
/// text before the new line is kept unchanged.
pub fn append_count_line(logs: String, n: u32) -> (r: String)
    ensures
        r@ == logs@ + count_line(n as nat),
{
    let line = render_count_line(n);
    let r = logs.concat(line.as_str());
    proof {
        assert(logs@ + ("Count is "@ + decimal_digits(n as nat) + "\r\n"@)
            =~= logs@ + "Count is "@ + decimal_digits(n as nat) + "\r\n"@);
    }
    r
}

} // verus!
