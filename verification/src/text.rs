//! Textual rendering of the numeric fields of a decoded header: decimal
//! octets for IPv4 addresses and lowercase hexadecimal for IPv6 groups and
//! the client identifier.

use vstd::prelude::*;

verus! {

/// The character for a single digit value below 16, lowercase.
pub open spec fn spec_digit(n: int) -> char {
    if n == 0 {
        '0'
    } else if n == 1 {
        '1'
    } else if n == 2 {
        '2'
    } else if n == 3 {
        '3'
    } else if n == 4 {
        '4'
    } else if n == 5 {
        '5'
    } else if n == 6 {
        '6'
    } else if n == 7 {
        '7'
    } else if n == 8 {
        '8'
    } else if n == 9 {
        '9'
    } else if n == 10 {
        'a'
    } else if n == 11 {
        'b'
    } else if n == 12 {
        'c'
    } else if n == 13 {
        'd'
    } else if n == 14 {
        'e'
    } else {
        'f'
    }
}

/// Decimal rendering of a non-negative number, without leading zeros
/// (a lone `0` for zero).
pub open spec fn spec_dec_text(n: int) -> Seq<char>
    recommends
        n >= 0,
    decreases n,
{
    if n < 10 {
        seq![spec_digit(n)]
    } else {
        spec_dec_text(n / 10).push(spec_digit(n % 10))
    }
}

/// Lowercase hexadecimal rendering of a non-negative number, without
/// leading zeros (a lone `0` for zero).
pub open spec fn spec_hex_text(n: int) -> Seq<char>
    recommends
        n >= 0,
    decreases n,
{
    if n < 16 {
        seq![spec_digit(n)]
    } else {
        spec_hex_text(n / 16).push(spec_digit(n % 16))
    }
}

/// Exactly two lowercase hexadecimal digits for one byte.
pub open spec fn spec_byte_hex(b: u8) -> Seq<char> {
    seq![spec_digit(b as int / 16), spec_digit(b as int % 16)]
}

/// Two lowercase hexadecimal digits for each byte, in order.
pub open spec fn spec_bytes_hex(s: Seq<u8>) -> Seq<char>
    decreases s.len(),
{
    if s.len() == 0 {
        Seq::empty()
    } else {
        spec_byte_hex(s[0]) + spec_bytes_hex(s.subrange(1, s.len() as int))
    }
}

/// Canonical text of a 16-byte client identifier: lowercase hex, two digits
/// per byte, hyphenated into groups of 4, 2, 2, 2 and 6 bytes.
pub open spec fn spec_uuid_text(b: Seq<u8>) -> Seq<char>
    recommends
        b.len() == 16,
{
    spec_bytes_hex(b.subrange(0, 4)) + seq!['-'] + spec_bytes_hex(b.subrange(4, 6)) + seq!['-']
        + spec_bytes_hex(b.subrange(6, 8)) + seq!['-'] + spec_bytes_hex(b.subrange(8, 10))
        + seq!['-'] + spec_bytes_hex(b.subrange(10, 16))
}

/// Dotted-decimal text of an IPv4 address.
pub open spec fn spec_ipv4_text(a: u8, b: u8, c: u8, d: u8) -> Seq<char> {
    spec_dec_text(a as int) + seq!['.'] + spec_dec_text(b as int) + seq!['.'] + spec_dec_text(
        c as int,
    ) + seq!['.'] + spec_dec_text(d as int)
}

/// One digit below 16 as a string slice.
fn digit_str(x: u8) -> (r: &'static str)
    requires
        x < 16,
    ensures
        r@ == seq![spec_digit(x as int)],
{
    proof {
        reveal_strlit("0");
        reveal_strlit("1");
        reveal_strlit("2");
        reveal_strlit("3");
        reveal_strlit("4");
        reveal_strlit("5");
        reveal_strlit("6");
        reveal_strlit("7");
        reveal_strlit("8");
        reveal_strlit("9");
        reveal_strlit("a");
        reveal_strlit("b");
        reveal_strlit("c");
        reveal_strlit("d");
        reveal_strlit("e");
        reveal_strlit("f");
    }
    let r: &'static str = match x {
        0 => "0",
        1 => "1",
        2 => "2",
        3 => "3",
        4 => "4",
        5 => "5",
        6 => "6",
        7 => "7",
        8 => "8",
        9 => "9",
        10 => "a",
        11 => "b",
        12 => "c",
        13 => "d",
        14 => "e",
        _ => "f",
    };
    proof {
        assert(r@ =~= seq![spec_digit(x as int)]);
    }
    r
}

/// Appends the decimal text of `x` to `s`.
pub fn push_dec_u8(s: &mut String, x: u8)
    ensures
        final(s)@ == old(s)@ + spec_dec_text(x as int),
    decreases x,
{
    if x < 10 {
        s.append(digit_str(x));
    } else {
        push_dec_u8(s, x / 10);
        s.append(digit_str(x % 10));
        proof {
            assert(s@ =~= old(s)@ + spec_dec_text(x as int));
        }
    }
}

/// Appends the lowercase hexadecimal text of `x`, without leading zeros,
/// to `s`.
pub fn push_hex_u16(s: &mut String, x: u16)
    ensures
        final(s)@ == old(s)@ + spec_hex_text(x as int),
    decreases x,
{
    if x < 16 {
        s.append(digit_str(x as u8));
    } else {
        push_hex_u16(s, x / 16);
        s.append(digit_str((x % 16) as u8));
        proof {
            assert(s@ =~= old(s)@ + spec_hex_text(x as int));
        }
    }
}

/// The dotted-decimal text of an IPv4 address, as the original wire bytes
/// give it: one decimal octet per byte, joined by dots.
pub fn format_ipv4(a: u8, b: u8, c: u8, d: u8) -> (r: String)
    ensures
        r@ == spec_ipv4_text(a, b, c, d),
{
    let mut s = String::new();
    push_dec_u8(&mut s, a);
    s.append(".");
    push_dec_u8(&mut s, b);
    s.append(".");
    push_dec_u8(&mut s, c);
    s.append(".");
    push_dec_u8(&mut s, d);
    proof {
        reveal_strlit(".");
        assert(s@ =~= spec_ipv4_text(a, b, c, d));
    }
    s
}

} // verus!
