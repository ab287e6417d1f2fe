//! Building the protocol's symbolic names: hexadecimal and decimal
//! renderings of opcodes and property keys, and lowercase hex dumps of
//! raw payload bytes.

use vstd::prelude::*;

verus! {

/// The uppercase hexadecimal digit for `d`.
pub open spec fn hex_digit_upper(d: int) -> char {
    if d == 0 {
        '0'
    } else if d == 1 {
        '1'
    } else if d == 2 {
        '2'
    } else if d == 3 {
        '3'
    } else if d == 4 {
        '4'
    } else if d == 5 {
        '5'
    } else if d == 6 {
        '6'
    } else if d == 7 {
        '7'
    } else if d == 8 {
        '8'
    } else if d == 9 {
        '9'
    } else if d == 10 {
        'A'
    } else if d == 11 {
        'B'
    } else if d == 12 {
        'C'
    } else if d == 13 {
        'D'
    } else if d == 14 {
        'E'
    } else {
        'F'
    }
}

/// The lowercase hexadecimal digit for `d`.
pub open spec fn hex_digit_lower(d: int) -> char {
    if d == 10 {
        'a'
    } else if d == 11 {
        'b'
    } else if d == 12 {
        'c'
    } else if d == 13 {
        'd'
    } else if d == 14 {
        'e'
    } else if d == 15 {
        'f'
    } else {
        hex_digit_upper(d)
    }
}

/// Uppercase hexadecimal digits of `v`, most significant first, no
/// leading zeros.
pub open spec fn hex_chars(v: int) -> Seq<char>
    decreases v,
{
    if v < 16 {
        seq![hex_digit_upper(v)]
    } else {
        hex_chars(v / 16).push(hex_digit_upper(v % 16))
    }
}

/// `v` in uppercase hexadecimal, zero-padded on the left to at least
/// four digits.
pub open spec fn hex04_chars(v: int) -> Seq<char> {
    if v < 0x10 {
        seq!['0', '0', '0'] + hex_chars(v)
    } else if v < 0x100 {
        seq!['0', '0'] + hex_chars(v)
    } else if v < 0x1000 {
        seq!['0'] + hex_chars(v)
    } else {
        hex_chars(v)
    }
}

/// Decimal digits of `v`, most significant first, no leading zeros.
pub open spec fn dec_chars(v: int) -> Seq<char>
    decreases v,
{
    if v < 10 {
        seq![hex_digit_upper(v)]
    } else {
        dec_chars(v / 10).push(hex_digit_upper(v % 10))
    }
}

/// Two lowercase hexadecimal digits for each byte.
pub open spec fn hex_lower_of(b: Seq<u8>) -> Seq<char> {
    Seq::new(
        2 * b.len(),
        |i: int|
            if i % 2 == 0 {
                hex_digit_lower(b[i / 2] as int / 16)
            } else {
                hex_digit_lower(b[i / 2] as int % 16)
            },
    )
}

fn hex_digit_str(d: u32) -> (r: &'static str)
    requires
        d < 16,
    ensures
        r@ =~= seq![hex_digit_upper(d as int)],
{
    proof {
        reveal_strlit("0");
        reveal_strlit("1");
        reveal_strlit("2");
        reveal_strlit("3");
        reveal_strlit("4");
        reveal_strlit("5");
        reveal_strlit("6");
        reveal_strlit("7");
        reveal_strlit("8");
        reveal_strlit("9");
        reveal_strlit("A");
        reveal_strlit("B");
        reveal_strlit("C");
        reveal_strlit("D");
        reveal_strlit("E");
        reveal_strlit("F");
    }
    match d {
        0 => "0",
        1 => "1",
        2 => "2",
        3 => "3",
        4 => "4",
        5 => "5",
        6 => "6",
        7 => "7",
        8 => "8",
        9 => "9",
        10 => "A",
        11 => "B",
        12 => "C",
        13 => "D",
        14 => "E",
        _ => "F",
    }
}

/// `v` in uppercase hexadecimal, no leading zeros.
pub fn hex_string(v: u32) -> (r: String)
    ensures
        r@ == hex_chars(v as int),
    decreases v,
{
    if v < 16 {
        String::from_str(hex_digit_str(v))
    } else {
        let mut s = hex_string(v / 16);
        s.append(hex_digit_str(v % 16));
        assert(s@ =~= hex_chars(v as int));
        s
    }
}

/// `v` in uppercase hexadecimal, zero-padded to at least four digits, as
/// `{:04X}` formats it.
pub fn hex04_string(v: u32) -> (r: String)
    ensures
        r@ == hex04_chars(v as int),
{
    proof {
        reveal_strlit("000");
        reveal_strlit("00");
        reveal_strlit("0");
    }
    let mut s = String::new();
    if v < 0x10 {
        s.append("000");
    } else if v < 0x100 {
        s.append("00");
    } else if v < 0x1000 {
        s.append("0");
    }
    let digits = hex_string(v);
    s.append(digits.as_str());
    assert(s@ =~= hex04_chars(v as int));
    s
}

/// `v` in decimal, as `{}` formats it.
pub fn dec_string(v: u32) -> (r: String)
    ensures
        r@ == dec_chars(v as int),
    decreases v,
{
    if v < 10 {
        String::from_str(hex_digit_str(v))
    } else {
        let mut s = dec_string(v / 10);
        s.append(hex_digit_str(v % 10));
        assert(s@ =~= dec_chars(v as int));
        s
    }
}

/// Relies on `hex::encode`: every input byte becomes exactly two
/// lowercase hexadecimal digits, in order.
#[verifier::external_body]
pub fn hex_encode(b: &[u8]) -> (r: String)
    ensures
        r@ == hex_lower_of(b@),
{
    hex::encode(b)
}

} // verus!
