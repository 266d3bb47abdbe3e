use vstd::prelude::*;

use crate::color::Rgb;
use crate::text::hex_char;

verus! {

/// `c` is an ASCII hexadecimal digit (`0`-`9`, `a`-`f`, `A`-`F`).
pub open spec fn is_hex_digit(c: char) -> bool {
    ||| ('0' <= c && c <= '9')
    ||| ('a' <= c && c <= 'f')
    ||| ('A' <= c && c <= 'F')
}

/// The value of the hexadecimal digit `c`.
pub open spec fn hex_value(c: char) -> nat
    recommends
        is_hex_digit(c),
{
    if '0' <= c && c <= '9' {
        (c as int - 48) as nat
    } else if 'a' <= c && c <= 'f' {
        (c as int - 87) as nat
    } else {
        (c as int - 55) as nat
    }
}

/// The byte written by the two hexadecimal digits `hi` and `lo`.
pub open spec fn hex_pair(hi: char, lo: char) -> u8 {
    (hex_value(hi) * 16 + hex_value(lo)) as u8
}

/// Every character of `s` is a hexadecimal digit.
pub open spec fn all_hex_digits(s: Seq<char>) -> bool {
    forall|i: int| 0 <= i < s.len() ==> #[trigger] is_hex_digit(s[i])
}

/// `s` without one leading `#`, if it has one.
pub open spec fn strip_hash(s: Seq<char>) -> Seq<char> {
    if s.len() > 0 && s[0] == '#' {
        s.skip(1)
    } else {
        s
    }
}

/// The color written by the hex digits `h`: six digits `rrggbb`, or three
/// digits `rgb` that stand for `rrggbb`; `None` for anything else.
pub open spec fn parse_hex_digits(h: Seq<char>) -> Option<Rgb> {
    if !all_hex_digits(h) {
        None
    } else if h.len() == 6 {
        Some((hex_pair(h[0], h[1]), hex_pair(h[2], h[3]), hex_pair(h[4], h[5])))
    } else if h.len() == 3 {
        Some((hex_pair(h[0], h[0]), hex_pair(h[1], h[1]), hex_pair(h[2], h[2])))
    } else {
        None
    }
}

/// The color written by a hex string, with or without a leading `#`.
pub open spec fn parse_hex(s: Seq<char>) -> Option<Rgb> {
    parse_hex_digits(strip_hash(s))
}

/// The two lowercase hexadecimal digits of a byte.
pub open spec fn hex_byte(v: u8) -> Seq<char> {
    seq![hex_char((v / 16) as nat), hex_char((v % 16) as nat)]
}

/// The `#rrggbb` form of a color, in lowercase digits.
pub open spec fn hex_string(v: Rgb) -> Seq<char> {
    seq!['#'] + hex_byte(v.0) + hex_byte(v.1) + hex_byte(v.2)
}

/// Test whether `c` is a hexadecimal digit.
pub(crate) fn is_hex_digit_exec(c: char) -> (res: bool)
    ensures
        res == is_hex_digit(c),
{
    ('0' <= c && c <= '9') || ('a' <= c && c <= 'f') || ('A' <= c && c <= 'F')
}

/// The value of a hexadecimal digit.
pub(crate) fn hex_value_exec(c: char) -> (v: u8)
    requires
        is_hex_digit(c),
    ensures
        v as nat == hex_value(c),
        v < 16,
{
    let n = c as u32;
    if '0' <= c && c <= '9' {
        (n - 48) as u8
    } else if 'a' <= c && c <= 'f' {
        (n - 87) as u8
    } else {
        (n - 55) as u8
    }
}

/// The byte written by two hexadecimal digits.
pub(crate) fn hex_pair_exec(hi: char, lo: char) -> (v: u8)
    requires
        is_hex_digit(hi),
        is_hex_digit(lo),
    ensures
        v == hex_pair(hi, lo),
{
    let h = hex_value_exec(hi);
    let l = hex_value_exec(lo);
    h * 16 + l
}

} // verus!
