//! Numbers and log lines as text.

use vstd::prelude::*;
use vstd::string::*;

verus! {

/// The character for one hexadecimal digit, in lower case.
pub open spec fn digit_char(d: int) -> char {
    if d == 0 {
        '0'
    } else if d == 1 {
        '1'
    } else if d == 2 {
        '2'
    } else if d == 3 {
        '3'
    } else if d == 4 {
        '4'
    } else if d == 5 {
        '5'
    } else if d == 6 {
        '6'
    } else if d == 7 {
        '7'
    } else if d == 8 {
        '8'
    } else if d == 9 {
        '9'
    } else if d == 10 {
        'a'
    } else if d == 11 {
        'b'
    } else if d == 12 {
        'c'
    } else if d == 13 {
        'd'
    } else if d == 14 {
        'e'
    } else {
        'f'
    }
}

/// A byte as two hexadecimal digits, the high one first.
pub open spec fn hex_byte_text(m: u8) -> Seq<char> {
    seq![digit_char(m as int / 16), digit_char(m as int % 16)]
}

/// A natural number in decimal, without leading zeros.
pub open spec fn decimal_text(n: nat) -> Seq<char>
    decreases n,
{
    if n < 10 {
        seq![digit_char(n as int)]
    } else {
        decimal_text(n / 10).push(digit_char(n as int % 10))
    }
}

/// An integer in decimal, with a minus sign in front of a negative one.
pub open spec fn signed_text(v: int) -> Seq<char> {
    if v < 0 {
        seq!['-'] + decimal_text((-v) as nat)
    } else {
        decimal_text(v as nat)
    }
}

/// A line as it goes into the log: closed by exactly the newline it already
/// ends with, or by one that is added.
pub open spec fn log_line(line: Seq<char>) -> Seq<char> {
    if line.len() > 0 && line.last() == '\n' {
        line
    } else {
        line.push('\n')
    }
}

/// The one-character string for a hexadecimal digit.
fn digit_str(d: u8) -> (s: &'static str)
    requires
        d < 16,
    ensures
        s@ == seq![digit_char(d as int)],
{
    proof {
        reveal_strlit("0");
        reveal_strlit("1");
        reveal_strlit("2");
        reveal_strlit("3");
        reveal_strlit("4");
        reveal_strlit("5");
        reveal_strlit("6");
        reveal_strlit("7");
        reveal_strlit("8");
        reveal_strlit("9");
        reveal_strlit("a");
        reveal_strlit("b");
        reveal_strlit("c");
        reveal_strlit("d");
        reveal_strlit("e");
        reveal_strlit("f");
    }
    let s = match d {
        0 => "0",
        1 => "1",
        2 => "2",
        3 => "3",
        4 => "4",
        5 => "5",
        6 => "6",
        7 => "7",
        8 => "8",
        9 => "9",
        10 => "a",
        11 => "b",
        12 => "c",
        13 => "d",
        14 => "e",
        _ => "f",
    };
    assert(s@ =~= seq![digit_char(d as int)]);
    s
}

/// Writes a byte as two lower-case hexadecimal digits.
pub fn hex_byte(m: u8) -> (s: String)
    ensures
        s@ == hex_byte_text(m),
{
    let mut s = String::from_str(digit_str(m / 16));
    s.append(digit_str(m % 16));
    assert(s@ =~= hex_byte_text(m));
    s
}

/// Writes a number in decimal.
pub fn decimal(n: u64) -> (s: String)
    ensures
        s@ == decimal_text(n as nat),
    decreases n,
{
    if n < 10 {
        let d: u8 = n as u8;
        String::from_str(digit_str(d))
    } else {
        let mut s = decimal(n / 10);
        let d: u8 = (n % 10) as u8;
        s.append(digit_str(d));
        assert(s@ =~= decimal_text(n as nat));
        s
    }
}

/// Writes a signal strength, or any other 16-bit integer, in decimal.
pub fn signed_decimal(v: i16) -> (s: String)
    ensures
        s@ == signed_text(v as int),
{
    if v < 0 {
        let magnitude: u64 = (-(v as i32)) as u64;
        let mut s = String::from_str("-");
        let digits = decimal(magnitude);
        s.append(digits.as_str());
        proof {
            reveal_strlit("-");
            assert(s@ =~= signed_text(v as int));
        }
        s
    } else {
        decimal(v as u64)
    }
}

/// Closes a line with a newline unless it already ends with one.
pub fn log_text(line: &str) -> (s: String)
    ensures
        s@ == log_line(line@),
{
    let n = line.unicode_len();
    let mut s = String::from_str(line);
    if n == 0 || line.get_char(n - 1) != '\n' {
        s.append("\n");
        proof {
            reveal_strlit("\n");
            assert(s@ =~= line@.push('\n'));
        }
    }
    s
}

} // verus!
