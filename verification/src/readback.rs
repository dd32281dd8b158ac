//! The line that describes a user when the users are read back at startup.

use vstd::prelude::*;
use vstd::string::StringExecFns;

verus! {

/// The character for a digit from 0 to 9.
pub open spec fn digit_char(digit: int) -> char {
    ('0' as int + digit) as char
}

/// A natural number in decimal, without leading zeros.
pub open spec fn decimal_digits(n: nat) -> Seq<char>
    decreases n,
{
    if n < 10 {
        seq![digit_char(n as int)]
    } else {
        decimal_digits(n / 10).push(digit_char((n % 10) as int))
    }
}

/// An integer in decimal, with a minus sign in front when it is negative.
pub open spec fn decimal_text(n: int) -> Seq<char> {
    if n < 0 {
        seq!['-'] + decimal_digits((-n) as nat)
    } else {
        decimal_digits(n as nat)
    }
}

/// The line for a user: id, name and handle, with commas between them.
pub open spec fn user_line_text(id: int, name: Seq<char>, at_id: Seq<char>) -> Seq<char> {
    decimal_text(id) + seq![','] + name + seq![','] + at_id
}

fn digit_text(digit: u64) -> (text: &'static str)
    requires
        digit < 10,
    ensures
        text@ == seq![digit_char(digit as int)],
{
    proof {
        reveal_strlit("0");
        reveal_strlit("1");
        reveal_strlit("2");
        reveal_strlit("3");
        reveal_strlit("4");
        reveal_strlit("5");
        reveal_strlit("6");
        reveal_strlit("7");
        reveal_strlit("8");
        reveal_strlit("9");
    }
    let text = match digit {
        0 => "0",
        1 => "1",
        2 => "2",
        3 => "3",
        4 => "4",
        5 => "5",
        6 => "6",
        7 => "7",
        8 => "8",
        _ => "9",
    };
    text
}

fn append_digits(line: &mut String, n: u64)
    ensures
        final(line)@ == old(line)@ + decimal_digits(n as nat),
    decreases n,
{
    if n >= 10 {
        append_digits(line, n / 10);
    }
    line.append(digit_text(n % 10));
}

/// Writes an integer in decimal.
pub fn decimal(n: i64) -> (text: String)
    ensures
        text@ == decimal_text(n as int),
{
    let mut text = String::new();
    if n < 0 {
        proof {
            reveal_strlit("-");
        }
        text.append("-");
        let magnitude: u64 = if n == i64::MIN {
            9223372036854775808u64
        } else {
            (-n) as u64
        };
        append_digits(&mut text, magnitude);
    } else {
        append_digits(&mut text, n as u64);
    }
    text
}

/// Writes the line for a user: id, name and handle, with commas between
/// them.
pub fn user_line(id: i64, name: &str, at_id: &str) -> (line: String)
    ensures
        line@ == user_line_text(id as int, name@, at_id@),
{
    proof {
        reveal_strlit(",");
    }
    let mut line = decimal(id);
    line.append(",");
    line.append(name);
    line.append(",");
    line.append(at_id);
    line
}

} // verus!
