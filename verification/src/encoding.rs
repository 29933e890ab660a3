//! Percent-encoding of path segments and decimal rendering of numbers.
//!
//! A path segment carries arbitrary caller-supplied text (an application id,
//! a session identity), so every byte of its UTF-8 form that is not safe
//! inside a URI path segment is written as a `%XX` escape with upper-case
//! hex digits. Characters that are safe in a path segment (`!`, `_`, ...)
//! are left as they are.

use vstd::prelude::*;

verus! {

/// Whether a byte of UTF-8 text must be written as a percent escape inside
/// a path segment: controls and space (`< 0x21`), non-ASCII bytes
/// (`> 0x7e`), and the segment-unsafe set `" # % / < > ? ` { }`.
pub open spec fn byte_needs_escape(b: u8) -> bool {
    ||| b < 0x21
    ||| b > 0x7e
    ||| b == 0x22
    ||| b == 0x23
    ||| b == 0x25
    ||| b == 0x2f
    ||| b == 0x3c
    ||| b == 0x3e
    ||| b == 0x3f
    ||| b == 0x60
    ||| b == 0x7b
    ||| b == 0x7d
}

/// The upper-case hexadecimal digit for a value below sixteen.
pub open spec fn hex_digit(d: u8) -> char
    recommends
        d < 16,
{
    if d < 10 {
        ((0x30 + d) as u8) as char
    } else {
        ((0x37 + d) as u8) as char
    }
}

/// The three-character escape `%XX` of one byte.
pub open spec fn escape_of(b: u8) -> Seq<char> {
    seq!['%', hex_digit(b / 16), hex_digit(b % 16)]
}

/// The encoding of one character: an ASCII character is kept or escaped
/// according to `byte_needs_escape`; a character above ASCII is written as
/// the escapes of the bytes of its UTF-8 form.
pub open spec fn encoded_char(c: char) -> Seq<char> {
    let u = c as u32;
    if u < 0x80 {
        if byte_needs_escape(u as u8) {
            escape_of(u as u8)
        } else {
            seq![c]
        }
    } else if u < 0x800 {
        escape_of((0xc0 + u / 0x40) as u8) + escape_of((0x80 + u % 0x40) as u8)
    } else if u < 0x10000 {
        escape_of((0xe0 + u / 0x1000) as u8) + escape_of((0x80 + (u / 0x40) % 0x40) as u8)
            + escape_of((0x80 + u % 0x40) as u8)
    } else {
        escape_of((0xf0 + u / 0x40000) as u8) + escape_of((0x80 + (u / 0x1000) % 0x40) as u8)
            + escape_of((0x80 + (u / 0x40) % 0x40) as u8) + escape_of((0x80 + u % 0x40) as u8)
    }
}

/// The percent-encoding of a whole string: the encodings of its characters
/// in order.
pub open spec fn encoding_of(s: Seq<char>) -> Seq<char>
    decreases s.len(),
{
    if s.len() == 0 {
        Seq::empty()
    } else {
        encoding_of(s.drop_last()) + encoded_char(s.last())
    }
}

/// The decimal digits of a number, most significant first, with no sign and
/// no leading zero (a single `0` for zero).
pub open spec fn decimal_of(n: nat) -> Seq<char>
    decreases n,
{
    if n < 10 {
        seq![hex_digit(n as u8)]
    } else {
        decimal_of(n / 10) + seq![hex_digit((n % 10) as u8)]
    }
}

/// One hexadecimal digit as a borrowed one-character string.
fn hex_str(d: u8) -> (r: &'static str)
    requires
        d < 16,
    ensures
        r@ == seq![hex_digit(d)],
{
    let s = "0123456789ABCDEF";
    proof {
        reveal_strlit("0123456789ABCDEF");
    }
    let r = s.substring_char(d as usize, d as usize + 1);
    proof {
        assert(r@ =~= seq![hex_digit(d)]);
    }
    r
}

/// Appends the `%XX` escape of one byte.
fn push_escape(out: &mut String, b: u8)
    ensures
        final(out)@ == old(out)@ + escape_of(b),
{
    out.append("%");
    out.append(hex_str(b / 16));
    out.append(hex_str(b % 16));
    proof {
        reveal_strlit("%");
        assert(out@ =~= old(out)@ + escape_of(b));
    }
}

/// Renders a number in decimal.
pub fn u32_decimal(n: u32) -> (r: String)
    ensures
        r@ == decimal_of(n as nat),
    decreases n,
{
    if n < 10 {
        String::from_str(hex_str(n as u8))
    } else {
        let mut r = u32_decimal(n / 10);
        r.append(hex_str((n % 10) as u8));
        r
    }
}

/// Percent-encodes a string for use as a URI path segment.
pub fn percent_encode(s: &str) -> (r: String)
    ensures
        r@ == encoding_of(s@),
{
    let n = s.unicode_len();
    let mut out = String::new();
    let mut i: usize = 0;
    while i < n
        invariant
            n == s@.len(),
            i <= n,
            out@ == encoding_of(s@.take(i as int)),
        decreases n - i,
    {
        let c = s.get_char(i);
        let u = c as u32;
        if u < 0x80 {
            let b = u as u8;
            if b < 0x21 || b > 0x7e || b == 0x22 || b == 0x23 || b == 0x25 || b == 0x2f
                || b == 0x3c || b == 0x3e || b == 0x3f || b == 0x60 || b == 0x7b || b == 0x7d {
                push_escape(&mut out, b);
            } else {
                let piece = s.substring_char(i, i + 1);
                out.append(piece);
                proof {
                    assert(piece@ =~= seq![c]);
                }
            }
        } else if u < 0x800 {
            push_escape(&mut out, (0xc0 + u / 0x40) as u8);
            push_escape(&mut out, (0x80 + u % 0x40) as u8);
        } else if u < 0x10000 {
            push_escape(&mut out, (0xe0 + u / 0x1000) as u8);
            push_escape(&mut out, (0x80 + (u / 0x40) % 0x40) as u8);
            push_escape(&mut out, (0x80 + u % 0x40) as u8);
        } else {
            push_escape(&mut out, (0xf0 + u / 0x40000) as u8);
            push_escape(&mut out, (0x80 + (u / 0x1000) % 0x40) as u8);
            push_escape(&mut out, (0x80 + (u / 0x40) % 0x40) as u8);
            push_escape(&mut out, (0x80 + u % 0x40) as u8);
        }
        proof {
            assert(s@.take(i + 1 as int).drop_last() =~= s@.take(i as int));
            assert(s@.take(i + 1 as int).last() == s@[i as int]);
            assert(out@ =~= encoding_of(s@.take(i + 1 as int)));
        }
        i = i + 1;
    }
    proof {
        assert(s@.take(n as int) =~= s@);
    }
    out
}

} // verus!
