//! Text of numbers and registers, for the disassemblers.
use vstd::prelude::*;
use vstd::string::*;

verus! {

/// The decimal digit `d` (0 - 9).
pub open spec fn digit_spec(d: u32) -> Seq<char> {
    if d == 0 {
        "0"@
    } else if d == 1 {
        "1"@
    } else if d == 2 {
        "2"@
    } else if d == 3 {
        "3"@
    } else if d == 4 {
        "4"@
    } else if d == 5 {
        "5"@
    } else if d == 6 {
        "6"@
    } else if d == 7 {
        "7"@
    } else if d == 8 {
        "8"@
    } else {
        "9"@
    }
}

/// Decimal notation of `n`, without leading zeros.
pub open spec fn decimal_spec(n: u32) -> Seq<char>
    decreases n,
{
    if n < 10 {
        digit_spec(n)
    } else {
        decimal_spec(n / 10) + digit_spec(n % 10)
    }
}

/// Name of register `n`: "R" and its number.
pub open spec fn reg_spec(n: u32) -> Seq<char> {
    "R"@ + decimal_spec(n)
}

/// The decimal digit `d`.
pub fn digit(d: u32) -> (r: &'static str)
    requires
        d < 10,
    ensures
        r@ == digit_spec(d),
{
    match d {
        0 => "0",
        1 => "1",
        2 => "2",
        3 => "3",
        4 => "4",
        5 => "5",
        6 => "6",
        7 => "7",
        8 => "8",
        _ => "9",
    }
}

/// Decimal notation of `n`.
pub fn decimal(n: u32) -> (r: String)
    ensures
        r@ == decimal_spec(n),
    decreases n,
{
    if n < 10 {
        String::from_str(digit(n))
    } else {
        let mut s = decimal(n / 10);
        s.append(digit(n % 10));
        s
    }
}

/// Name of register `n`.
pub fn reg(n: u32) -> (r: String)
    ensures
        r@ == reg_spec(n),
{
    let mut s = String::from_str("R");
    let d = decimal(n);
    s.append(d.as_str());
    s
}


/// Decimal notation of a double word.
pub open spec fn decimal64_spec(n: u64) -> Seq<char>
    decreases n,
{
    if n < 10 {
        digit_spec(n as u32)
    } else {
        decimal64_spec(n / 10) + digit_spec((n % 10) as u32)
    }
}

/// The lower case hexadecimal digit `d` (0 - 15).
pub open spec fn hex_digit_spec(d: u32) -> Seq<char> {
    if d < 10 {
        digit_spec(d)
    } else if d == 10 {
        "a"@
    } else if d == 11 {
        "b"@
    } else if d == 12 {
        "c"@
    } else if d == 13 {
        "d"@
    } else if d == 14 {
        "e"@
    } else {
        "f"@
    }
}

/// The `n` low hexadecimal digits of `v`, most significant first (padded
/// with zeros).
pub open spec fn hex_spec(v: u32, n: nat) -> Seq<char>
    decreases n,
{
    if n == 0 {
        Seq::empty()
    } else {
        hex_spec(v / 16, (n - 1) as nat) + hex_digit_spec(v % 16)
    }
}

/// Decimal notation of `n` left aligned in two columns.
pub open spec fn pad2_spec(n: u32) -> Seq<char> {
    if n < 10 {
        decimal_spec(n) + " "@
    } else {
        decimal_spec(n)
    }
}

/// Decimal notation of a double word.
pub fn decimal64(n: u64) -> (r: String)
    ensures
        r@ == decimal64_spec(n),
    decreases n,
{
    if n < 10 {
        String::from_str(digit(n as u32))
    } else {
        let mut s = decimal64(n / 10);
        s.append(digit((n % 10) as u32));
        s
    }
}

/// The lower case hexadecimal digit `d`.
pub fn hex_digit(d: u32) -> (r: &'static str)
    requires
        d < 16,
    ensures
        r@ == hex_digit_spec(d),
{
    if d < 10 {
        digit(d)
    } else {
        match d {
            10 => "a",
            11 => "b",
            12 => "c",
            13 => "d",
            14 => "e",
            _ => "f",
        }
    }
}

/// The `n` low hexadecimal digits of `v`.
pub fn hex(v: u32, n: u32) -> (r: String)
    ensures
        r@ == hex_spec(v, n as nat),
    decreases n,
{
    if n == 0 {
        String::new()
    } else {
        let mut s = hex(v / 16, n - 1);
        s.append(hex_digit(v % 16));
        s
    }
}

/// Decimal notation of `n` left aligned in two columns.
pub fn pad2(n: u32) -> (r: String)
    ensures
        r@ == pad2_spec(n),
{
    let mut s = decimal(n);
    if n < 10 {
        s.append(" ");
    }
    s
}

} // verus!
