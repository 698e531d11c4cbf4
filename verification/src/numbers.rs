//! Decimal rendering of integers and the numeric encodings used on the wire:
//! the big-endian 32-bit form of an IPv4 address and the big-endian two-byte
//! form of a port number.

use vstd::prelude::*;

verus! {

/// The decimal digit character for a value below ten.
pub open spec fn dec_digit(d: nat) -> char {
    if d == 0 {
        '0'
    } else if d == 1 {
        '1'
    } else if d == 2 {
        '2'
    } else if d == 3 {
        '3'
    } else if d == 4 {
        '4'
    } else if d == 5 {
        '5'
    } else if d == 6 {
        '6'
    } else if d == 7 {
        '7'
    } else if d == 8 {
        '8'
    } else {
        '9'
    }
}

/// The decimal rendering of `v`, most significant digit first, with no
/// leading zeros (`0` renders as "0").
pub open spec fn dec_digits(v: nat) -> Seq<char>
    decreases v,
{
    if v < 10 {
        seq![dec_digit(v)]
    } else {
        dec_digits(v / 10).push(dec_digit(v % 10))
    }
}

/// Appends the decimal rendering of `v` to `out`.
fn push_decimal(out: &mut String, v: u32)
    ensures
        final(out)@ == old(out)@ + dec_digits(v as nat),
    decreases v,
{
    if v >= 10 {
        push_decimal(out, v / 10);
    }
    let d = v % 10;
    proof {
        reveal_strlit("0");
        reveal_strlit("1");
        reveal_strlit("2");
        reveal_strlit("3");
        reveal_strlit("4");
        reveal_strlit("5");
        reveal_strlit("6");
        reveal_strlit("7");
        reveal_strlit("8");
        reveal_strlit("9");
    }
    if d == 0 {
        out.append("0");
    } else if d == 1 {
        out.append("1");
    } else if d == 2 {
        out.append("2");
    } else if d == 3 {
        out.append("3");
    } else if d == 4 {
        out.append("4");
    } else if d == 5 {
        out.append("5");
    } else if d == 6 {
        out.append("6");
    } else if d == 7 {
        out.append("7");
    } else if d == 8 {
        out.append("8");
    } else {
        out.append("9");
    }
    proof {
        assert(out@ =~= old(out)@ + dec_digits(v as nat));
    }
}

/// The decimal rendering of a 32-bit value as a fresh string.
pub fn u32_to_decimal(v: u32) -> (s: String)
    ensures
        s@ == dec_digits(v as nat),
{
    let mut s = String::new();
    push_decimal(&mut s, v);
    proof {
        assert(s@ =~= dec_digits(v as nat));
    }
    s
}

/// The decimal rendering of a port number as a fresh string.
pub fn u16_to_decimal(v: u16) -> (s: String)
    ensures
        s@ == dec_digits(v as nat),
{
    u32_to_decimal(v as u32)
}

/// The big-endian 32-bit integer form of the four octets of an IPv4
/// address; the numeric encoding the game expects in discovery responses.
pub open spec fn ipv4_u32(a: u8, b: u8, c: u8, d: u8) -> int {
    a * 0x1000000 + b * 0x10000 + c * 0x100 + d
}

/// Packs four IPv4 octets into their big-endian 32-bit integer form.
pub fn ipv4_to_u32(a: u8, b: u8, c: u8, d: u8) -> (r: u32)
    ensures
        r == ipv4_u32(a, b, c, d),
{
    (a as u32) * 0x1000000 + (b as u32) * 0x10000 + (c as u32) * 0x100 + (d as u32)
}

/// The loopback address 127.0.0.1 packs to 2130706433, the value the
/// discovery response carries for a local tunnel endpoint.
pub proof fn lemma_loopback_u32()
    ensures
        ipv4_u32(127, 0, 0, 1) == 2130706433,
{
}

/// The two big-endian bytes of a port number.
pub open spec fn u16_be(p: u16) -> Seq<u8> {
    seq![(p / 0x100) as u8, (p % 0x100) as u8]
}

/// The two big-endian bytes carry exactly the port's value.
pub proof fn lemma_u16_be_value(p: u16)
    ensures
        u16_be(p).len() == 2,
        u16_be(p)[0] * 0x100 + u16_be(p)[1] == p,
{
}

/// The big-endian 32-bit form carries exactly the four octets.
pub proof fn lemma_ipv4_u32_octets(a: u8, b: u8, c: u8, d: u8)
    ensures
        ipv4_u32(a, b, c, d) / 0x1000000 == a,
        (ipv4_u32(a, b, c, d) / 0x10000) % 0x100 == b,
        (ipv4_u32(a, b, c, d) / 0x100) % 0x100 == c,
        ipv4_u32(a, b, c, d) % 0x100 == d,
{
    let v = ipv4_u32(a, b, c, d);
    assert(v / 0x1000000 == a) by (nonlinear_arith)
        requires
            v == a * 0x1000000 + b * 0x10000 + c * 0x100 + d,
            a <= 255 && b <= 255 && c <= 255 && d <= 255,
    ;
    assert((v / 0x10000) % 0x100 == b) by (nonlinear_arith)
        requires
            v == a * 0x1000000 + b * 0x10000 + c * 0x100 + d,
            a <= 255 && b <= 255 && c <= 255 && d <= 255,
    ;
    assert((v / 0x100) % 0x100 == c) by (nonlinear_arith)
        requires
            v == a * 0x1000000 + b * 0x10000 + c * 0x100 + d,
            a <= 255 && b <= 255 && c <= 255 && d <= 255,
    ;
    assert(v % 0x100 == d) by (nonlinear_arith)
        requires
            v == a * 0x1000000 + b * 0x10000 + c * 0x100 + d,
            a <= 255 && b <= 255 && c <= 255 && d <= 255,
    ;
}

/// Splits a port number into its two big-endian bytes.
pub fn u16_be_bytes(p: u16) -> (r: [u8; 2])
    ensures
        r@ == u16_be(p),
{
    let r = [(p / 0x100) as u8, (p % 0x100) as u8];
    proof {
        assert(r@ =~= u16_be(p));
    }
    r
}

} // verus!
