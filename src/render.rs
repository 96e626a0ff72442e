//! Writing an integer total in decimal, or in hexadecimal with a `0x` prefix.
use vstd::prelude::*;

use crate::text::string_of;

verus! {

/// The digit character for `d`: `0`-`9`, then upper-case `A`-`Z`.
pub open spec fn digit_char(d: nat) -> char {
    if d < 10 {
        ('0' as u32 + d) as char
    } else {
        ('A' as u32 + d - 10) as char
    }
}

/// The radix of the digits: 16 in hex form, else 10.
pub open spec fn radix_of(hex: bool) -> nat {
    if hex {
        16
    } else {
        10
    }
}

/// The digits of `n` in radix 16 (`hex`) or 10, most significant first,
/// without leading zeros (a single `0` for zero).
pub open spec fn digits_text(n: nat, hex: bool) -> Seq<char>
    decreases n,
{
    let q = if hex {
        n / 16
    } else {
        n / 10
    };
    let d = if hex {
        n % 16
    } else {
        n % 10
    };
    if n < radix_of(hex) {
        seq![digit_char(n)]
    } else {
        digits_text(q, hex).push(digit_char(d))
    }
}

/// The value of the 128 bits of `n` read as an unsigned number.
pub open spec fn unsigned_bits(n: i128) -> nat {
    if n < 0 {
        (n + 0x1_0000_0000_0000_0000_0000_0000_0000_0000) as nat
    } else {
        n as nat
    }
}

/// `n` in decimal with a leading `-` when negative; or, in hex form, `0x`
/// followed by the upper-case hexadecimal digits of its 128-bit two's
/// complement.
pub open spec fn rendered(n: i128, hex: bool) -> Seq<char> {
    if hex {
        seq!['0', 'x'] + digits_text(unsigned_bits(n), true)
    } else if n < 0 {
        seq!['-'] + digits_text((-n) as nat, false)
    } else {
        digits_text(n as nat, false)
    }
}

/// The digits of `m` in radix 16 (`hex`) or 10, as characters.
fn digits_of(m: u128, hex: bool) -> (r: Vec<char>)
    ensures
        r@ == digits_text(m as nat, hex),
{
    let radix: u128 = if hex {
        16
    } else {
        10
    };
    let mut out: Vec<char> = Vec::new();
    let mut k: u128 = m;
    while k >= radix
        invariant
            radix == radix_of(hex),
            digits_text(m as nat, hex) == digits_text(k as nat, hex) + out@,
        decreases k,
    {
        let d = k % radix;
        let c = digit(d);
        let ghost head = digits_text((k / radix) as nat, hex);
        assert(digits_text(k as nat, hex) == head.push(c));
        assert(head.push(c) + out@ =~= head + out@.insert(0, c));
        out.insert(0, c);
        k = k / radix;
    }
    let c = digit(k);
    assert(digits_text(m as nat, hex) =~= out@.insert(0, c));
    out.insert(0, c);
    out
}

/// The digit character for `d`.
fn digit(d: u128) -> (c: char)
    requires
        d < 16,
    ensures
        c == digit_char(d as nat),
{
    let v = d as u8;
    if v < 10 {
        (48u8 + v) as char
    } else {
        (55u8 + v) as char
    }
}

/// Writes the integer `n` as `rendered` describes.
pub fn render_integer(n: i128, hex: bool) -> (r: String)
    ensures
        r@ == rendered(n, hex),
{
    if hex {
        let bits: u128 = if n < 0 {
            ((n - i128::MIN) as u128) + 0x8000_0000_0000_0000_0000_0000_0000_0000u128
        } else {
            n as u128
        };
        let mut out: Vec<char> = vec!['0', 'x'];
        let mut ds = digits_of(bits, true);
        out.append(&mut ds);
        string_of(&out)
    } else if n < 0 {
        let mag: u128 = ((-(n + 1)) as u128) + 1;
        let mut out: Vec<char> = vec!['-'];
        let mut ds = digits_of(mag, false);
        out.append(&mut ds);
        string_of(&out)
    } else {
        let ds = digits_of(n as u128, false);
        string_of(&ds)
    }
}

} // verus!
