//! Textual rendering of masks and parsing of the representation token.
//!
//! A number is rendered most significant digit first, with no leading
//! zeroes and no separators, behind a `0x` or `0b` prefix. The digit
//! sequences are specified by the recursive functions `hex_digits`,
//! `bin_digits` and `dec_digits`.

use vstd::prelude::*;
use vstd::string::*;

verus! {

/// The textual radix and letter case used to render a mask.
#[derive(Clone, Copy, Debug, PartialEq, Eq, Structural)]
pub enum Representation {
    Hex,
    HexUp,
    Binary,
}

/// The character for a single digit value below sixteen.
pub open spec fn digit_char(d: nat, upper: bool) -> char
    recommends
        d < 16,
{
    if d == 0 {
        '0'
    } else if d == 1 {
        '1'
    } else if d == 2 {
        '2'
    } else if d == 3 {
        '3'
    } else if d == 4 {
        '4'
    } else if d == 5 {
        '5'
    } else if d == 6 {
        '6'
    } else if d == 7 {
        '7'
    } else if d == 8 {
        '8'
    } else if d == 9 {
        '9'
    } else if d == 10 {
        if upper { 'A' } else { 'a' }
    } else if d == 11 {
        if upper { 'B' } else { 'b' }
    } else if d == 12 {
        if upper { 'C' } else { 'c' }
    } else if d == 13 {
        if upper { 'D' } else { 'd' }
    } else if d == 14 {
        if upper { 'E' } else { 'e' }
    } else {
        if upper { 'F' } else { 'f' }
    }
}

/// Hexadecimal digits of `n`, most significant first, no leading zeroes.
pub open spec fn hex_digits(n: nat, upper: bool) -> Seq<char>
    decreases n,
{
    if n < 16 {
        seq![digit_char(n, upper)]
    } else {
        hex_digits(n / 16, upper) + seq![digit_char(n % 16, upper)]
    }
}

/// Binary digits of `n`, most significant first, no leading zeroes.
pub open spec fn bin_digits(n: nat) -> Seq<char>
    decreases n,
{
    if n < 2 {
        seq![digit_char(n, false)]
    } else {
        bin_digits(n / 2) + seq![digit_char(n % 2, false)]
    }
}

/// Decimal digits of `n`, most significant first, no leading zeroes.
pub open spec fn dec_digits(n: nat) -> Seq<char>
    decreases n,
{
    if n < 10 {
        seq![digit_char(n, false)]
    } else {
        dec_digits(n / 10) + seq![digit_char(n % 10, false)]
    }
}

/// The full rendering of `n` under a representation: prefix plus digits.
pub open spec fn formatted(n: nat, rep: Representation) -> Seq<char> {
    match rep {
        Representation::Hex => "0x"@ + hex_digits(n, false),
        Representation::HexUp => "0x"@ + hex_digits(n, true),
        Representation::Binary => "0b"@ + bin_digits(n),
    }
}

/// Which representation a token of the command line denotes, if any.
pub open spec fn rep_of_token(s: Seq<char>) -> Option<Representation> {
    if s == "x"@ {
        Some(Representation::Hex)
    } else if s == "X"@ {
        Some(Representation::HexUp)
    } else if s == "b"@ {
        Some(Representation::Binary)
    } else {
        None
    }
}

/// Law: below ten, the hexadecimal digits of a number are exactly its
/// decimal digits, whatever the letter case.
pub proof fn lemma_small_hex_digits_are_decimal(n: nat, upper: bool)
    requires
        n < 10,
    ensures
        hex_digits(n, upper) == dec_digits(n),
{
}

/// One digit as a string slice.
fn digit_str(d: usize, upper: bool) -> (r: &'static str)
    requires
        d < 16,
    ensures
        r@ == seq![digit_char(d as nat, upper)],
{
    proof {
        reveal_strlit("0");
        reveal_strlit("1");
        reveal_strlit("2");
        reveal_strlit("3");
        reveal_strlit("4");
        reveal_strlit("5");
        reveal_strlit("6");
        reveal_strlit("7");
        reveal_strlit("8");
        reveal_strlit("9");
        reveal_strlit("a");
        reveal_strlit("b");
        reveal_strlit("c");
        reveal_strlit("d");
        reveal_strlit("e");
        reveal_strlit("f");
        reveal_strlit("A");
        reveal_strlit("B");
        reveal_strlit("C");
        reveal_strlit("D");
        reveal_strlit("E");
        reveal_strlit("F");
    }
    let r: &'static str = if upper {
        match d {
            0 => "0",
            1 => "1",
            2 => "2",
            3 => "3",
            4 => "4",
            5 => "5",
            6 => "6",
            7 => "7",
            8 => "8",
            9 => "9",
            10 => "A",
            11 => "B",
            12 => "C",
            13 => "D",
            14 => "E",
            _ => "F",
        }
    } else {
        match d {
            0 => "0",
            1 => "1",
            2 => "2",
            3 => "3",
            4 => "4",
            5 => "5",
            6 => "6",
            7 => "7",
            8 => "8",
            9 => "9",
            10 => "a",
            11 => "b",
            12 => "c",
            13 => "d",
            14 => "e",
            _ => "f",
        }
    };
    proof {
        assert(r@ =~= seq![digit_char(d as nat, upper)]);
    }
    r
}

/// Hexadecimal digits of `n` as a string, most significant first.
pub(crate) fn hex_string(n: usize, upper: bool) -> (r: String)
    ensures
        r@ == hex_digits(n as nat, upper),
    decreases n,
{
    let d: usize = n % 16;
    let ds = digit_str(d, upper);
    if n < 16 {
        String::from_str(ds)
    } else {
        let mut s = hex_string(n / 16, upper);
        s.append(ds);
        s
    }
}

/// Binary digits of `n` as a string, most significant first.
pub(crate) fn bin_string(n: usize) -> (r: String)
    ensures
        r@ == bin_digits(n as nat),
    decreases n,
{
    let d: usize = n % 2;
    let ds = digit_str(d, false);
    if n < 2 {
        String::from_str(ds)
    } else {
        let mut s = bin_string(n / 2);
        s.append(ds);
        s
    }
}

/// Decimal digits of `n` as a string, most significant first.
pub(crate) fn dec_string(n: usize) -> (r: String)
    ensures
        r@ == dec_digits(n as nat),
    decreases n,
{
    let d: usize = n % 10;
    let ds = digit_str(d, false);
    if n < 10 {
        String::from_str(ds)
    } else {
        let mut s = dec_string(n / 10);
        s.append(ds);
        s
    }
}

/// Render `number` under the chosen representation: `0x` plus lowercase
/// or uppercase hexadecimal digits, or `0b` plus binary digits.
pub fn format_output(number: usize, representation: Representation) -> (r: String)
    ensures
        r@ == formatted(number as nat, representation),
{
    match representation {
        Representation::Hex => {
            let mut s = String::from_str("0x");
            let digits = hex_string(number, false);
            s.append(digits.as_str());
            s
        }
        Representation::HexUp => {
            let mut s = String::from_str("0x");
            let digits = hex_string(number, true);
            s.append(digits.as_str());
            s
        }
        Representation::Binary => {
            let mut s = String::from_str("0b");
            let digits = bin_string(number);
            s.append(digits.as_str());
            s
        }
    }
}

/// Parse the single-character representation token: `"x"`, `"X"` or
/// `"b"`. Every other string is rejected.
pub fn parse_representation(s: &str) -> (r: Result<Representation, &'static str>)
    ensures
        r matches Ok(rep) ==> rep_of_token(s@) == Some(rep),
        r is Err ==> rep_of_token(s@) is None,
        r matches Err(e) ==> e@ == "no match"@,
{
    proof {
        reveal_strlit("x");
        reveal_strlit("X");
        reveal_strlit("b");
    }
    let len = s.unicode_len();
    if len == 1 {
        let c = s.get_char(0);
        if c == 'x' {
            proof {
                assert(s@ =~= "x"@);
            }
            Ok(Representation::Hex)
        } else if c == 'X' {
            proof {
                assert(s@ =~= "X"@);
            }
            Ok(Representation::HexUp)
        } else if c == 'b' {
            proof {
                assert(s@ =~= "b"@);
            }
            Ok(Representation::Binary)
        } else {
            Err("no match")
        }
    } else {
        Err("no match")
    }
}

impl core::str::FromStr for Representation {
    type Err = &'static str;

    fn from_str(s: &str) -> Result<Self, Self::Err> {
        parse_representation(s)
    }
}

} // verus!

