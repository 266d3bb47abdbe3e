use vstd::prelude::*;

use crate::color::{luma_units, LUMA_BLUE, LUMA_GREEN, LUMA_RED, gray_level, spec_complement, spec_grayscale, spec_invert, spec_rotate_third, Rgb};
use crate::hsl::{hsl_hue, hsl_lightness, hsl_saturation, hue_scaled, max3, min3, round_div};
use crate::hex::{
    all_hex_digits, hex_byte, hex_pair, hex_string, hex_value, is_hex_digit, parse_hex, parse_hex_digits, strip_hash,
};
use crate::binary64::{
    lemma_nearest_close, lemma_nearest_signed_close, lemma_nearest_zero, nearest, nearest_signed,
};
use crate::css::{
    all_ascii, ascii_lower_char, ascii_lowercase, css_entry, css_lookup, css_lookup_from,
    CSS_COLOR_COUNT,
};
use crate::hsl_accuracy::{
    lemma_extreme_channels, lemma_hue_double_accurate, lemma_lightness_double_accurate,
    lemma_rounding_agrees, lemma_saturation_double_accurate, saturation_denominator,
};
use crate::hsl_binary64::{
    abs, channel, epsilon, hsl_doubles, hue_double, lemma_channel, lemma_channels_apart,
    lemma_hue_double_range, lemma_saturation_double_range, lemma_spread, max_of, min_of, one,
    round_away, saturation_double,
};
use crate::text::{dec_digits, hex_char};

verus! {

/// Every lowercase digit written by the library is read back as the same value.
pub proof fn lemma_hex_char(d: nat)
    requires
        d < 16,
    ensures
        is_hex_digit(hex_char(d)),
        hex_value(hex_char(d)) == d,
{
}

/// The library writes hex digits in lowercase: the digit for `d` is the
/// `d`-th character of `0123456789abcdef`.
pub proof fn lemma_hex_char_is_lowercase(d: nat)
    requires
        d < 16,
    ensures
        hex_char(d) == "0123456789abcdef"@[d as int],
{
    reveal_strlit("0123456789abcdef");
    assert(d == 0 || d == 1 || d == 2 || d == 3 || d == 4 || d == 5 || d == 6 || d == 7 || d == 8
        || d == 9 || d == 10 || d == 11 || d == 12 || d == 13 || d == 14 || d == 15);
}

/// The number written by a string of decimal digits.
pub open spec fn decimal_value(s: Seq<char>) -> int
    decreases s.len(),
{
    if s.len() == 0 {
        0
    } else {
        decimal_value(s.drop_last()) * 10 + (s.last() as int - '0' as int)
    }
}

/// The decimal form of a number is made of the digits `0`-`9`, has no leading
/// zero, and reads back as the number.
pub proof fn lemma_dec_digits_read_back(n: nat)
    ensures
        forall|i: int| 0 <= i < dec_digits(n).len() ==> '0' <= #[trigger] dec_digits(n)[i] <= '9',
        dec_digits(n).len() == 1 || dec_digits(n)[0] != '0',
        decimal_value(dec_digits(n)) == n,
    decreases n,
{
    if n >= 10 {
        lemma_dec_digits_read_back(n / 10);
        let p = dec_digits(n / 10);
        let t = dec_digits(n);
        assert(t == p.push(hex_char(n % 10)));
        assert(t.drop_last() =~= p);
        assert(forall|i: int| 0 <= i < p.len() ==> t[i] == p[i]);
        assert(decimal_value(t) == decimal_value(p) * 10 + (n % 10));
        if p.len() == 1 {
            assert(p.drop_last() =~= Seq::<char>::empty());
            assert(decimal_value(p.drop_last()) == 0);
            assert(decimal_value(p) == p[0] as int - '0' as int);
        }
    } else {
        let t = dec_digits(n);
        assert(t.drop_last() =~= Seq::<char>::empty());
        assert(decimal_value(t.drop_last()) == 0);
    }
}

/// Reading back the two hex digits of a byte gives the byte.
pub proof fn lemma_hex_byte(v: u8)
    ensures
        is_hex_digit(hex_byte(v)[0]),
        is_hex_digit(hex_byte(v)[1]),
        hex_pair(hex_byte(v)[0], hex_byte(v)[1]) == v,
{
    lemma_hex_char((v / 16) as nat);
    lemma_hex_char((v % 16) as nat);
}

/// Parsing the hex string of a color gives the color back:
/// `Color::from_hex(&c.to_hex()) == Ok(c)`.
pub proof fn lemma_hex_round_trip(v: Rgb)
    ensures
        parse_hex(hex_string(v)) == Some(v),
{
    let s = hex_string(v);
    lemma_hex_byte(v.0);
    lemma_hex_byte(v.1);
    lemma_hex_byte(v.2);
    let h = hex_byte(v.0) + hex_byte(v.1) + hex_byte(v.2);
    assert(strip_hash(s) =~= h);
    assert(h[0] == hex_byte(v.0)[0] && h[1] == hex_byte(v.0)[1]);
    assert(h[2] == hex_byte(v.1)[0] && h[3] == hex_byte(v.1)[1]);
    assert(h[4] == hex_byte(v.2)[0] && h[5] == hex_byte(v.2)[1]);
}

/// Inverting a color twice gives the color back.
pub proof fn lemma_invert_involution(v: Rgb)
    ensures
        spec_invert(spec_invert(v)) == v,
{
}

/// Inverting takes each component `c` to `255 - c`: a component and the
/// same component of the inverse always add up to 255.
pub proof fn lemma_invert_complements_each_component(v: Rgb)
    ensures
        spec_invert(v).0 + v.0 == 255,
        spec_invert(v).1 + v.1 == 255,
        spec_invert(v).2 + v.2 == 255,
{
}

/// Adding a whole multiple of the divisor to the dividend adds as much to the
/// rounded quotient.
pub proof fn lemma_round_div_shift(n: nat, d: nat, k: nat)
    requires
        d > 0,
    ensures
        round_div(n + k * d, d) == round_div(n, d) + k,
{
    vstd::arithmetic::div_mod::lemma_hoist_over_denominator(
        (2 * n + d) as int,
        k as int,
        (2 * d) as nat,
    );
    assert(k * (2 * d) == 2 * (k * d)) by (nonlinear_arith);
    assert(2 * (n + k * d) + d == (2 * n + d) + k * (2 * d));
}

/// The complement keeps the largest and smallest components, and turns the
/// scaled hue by half a turn.
proof fn lemma_complement_scaled(v: Rgb)
    ensures
        max3(spec_complement(v)) == max3(v),
        min3(spec_complement(v)) == min3(v),
        max3(v) != min3(v) ==> {
            let d = max3(v) - min3(v);
            ||| hue_scaled(spec_complement(v)) == hue_scaled(v) + 180 * d
            ||| hue_scaled(spec_complement(v)) + 180 * d == hue_scaled(v)
        },
{
}

/// Turning the hue by a third keeps the largest and smallest components, and
/// turns the scaled hue by a third of a turn.
proof fn lemma_rotate_third_scaled(v: Rgb)
    ensures
        max3(spec_rotate_third(v)) == max3(v),
        min3(spec_rotate_third(v)) == min3(v),
        max3(v) != min3(v) ==> {
            let d = max3(v) - min3(v);
            ||| hue_scaled(spec_rotate_third(v)) == hue_scaled(v) + 120 * d
            ||| hue_scaled(spec_rotate_third(v)) + 240 * d == hue_scaled(v)
        },
{
}

/// The complementary color has the same HSL saturation and lightness, and its
/// hue differs by 180 degrees (the whole-degree hues differ by exactly 180).
/// A gray is its own complement.
pub proof fn lemma_complement_is_half_turn(v: Rgb)
    ensures
        hsl_saturation(spec_complement(v)) == hsl_saturation(v),
        hsl_lightness(spec_complement(v)) == hsl_lightness(v),
        max3(v) == min3(v) ==> spec_complement(v) == v,
        max3(v) != min3(v) ==> {
            ||| hsl_hue(spec_complement(v)) == hsl_hue(v) + 180
            ||| hsl_hue(spec_complement(v)) + 180 == hsl_hue(v)
        },
{
    lemma_complement_scaled(v);
    if max3(v) != min3(v) {
        let d = (max3(v) - min3(v)) as nat;
        let c = spec_complement(v);
        if hue_scaled(c) == hue_scaled(v) + 180 * d {
            lemma_round_div_shift(hue_scaled(v), d, 180);
        } else {
            lemma_round_div_shift(hue_scaled(c), d, 180);
        }
    }
}

/// Taking the complement twice gives the color back.
pub proof fn lemma_complement_involution(v: Rgb)
    ensures
        spec_complement(spec_complement(v)) == v,
{
    lemma_complement_scaled(v);
}

/// The first triadic color has the same HSL saturation and lightness, and its
/// hue is turned by 120 degrees (the whole-degree hues differ by 120, or by
/// -240 across 360).
pub proof fn lemma_rotate_third_is_third_turn(v: Rgb)
    ensures
        hsl_saturation(spec_rotate_third(v)) == hsl_saturation(v),
        hsl_lightness(spec_rotate_third(v)) == hsl_lightness(v),
        max3(v) != min3(v) ==> {
            ||| hsl_hue(spec_rotate_third(v)) == hsl_hue(v) + 120
            ||| hsl_hue(spec_rotate_third(v)) + 240 == hsl_hue(v)
        },
{
    lemma_rotate_third_scaled(v);
    if max3(v) != min3(v) {
        let d = (max3(v) - min3(v)) as nat;
        let c = spec_rotate_third(v);
        if hue_scaled(c) == hue_scaled(v) + 120 * d {
            lemma_round_div_shift(hue_scaled(v), d, 120);
        } else {
            lemma_round_div_shift(hue_scaled(c), d, 240);
        }
    }
}

/// Turning the hue by a third three times gives the color back, so the two
/// triadic colors and the color itself are each other's triadic colors.
pub proof fn lemma_rotate_third_cycle(v: Rgb)
    ensures
        spec_rotate_third(spec_rotate_third(spec_rotate_third(v))) == v,
{
}

/// The double-precision luma is within a few rounding steps of the exact
/// weighted sum of the components with the double coefficients.
proof fn lemma_luma_close(v: Rgb)
    ensures
        luma_units(v) <= LUMA_RED * v.0 + LUMA_GREEN * v.1 + LUMA_BLUE * v.2 + 5 * 0x4000_0000,
        LUMA_RED * v.0 + LUMA_GREEN * v.1 + LUMA_BLUE * v.2 <= luma_units(v) + 5 * 0x4000_0000,
{
    let red = nearest((LUMA_RED * v.0) as nat, 1);
    let green = nearest((LUMA_GREEN * v.1) as nat, 1);
    let blue = nearest((LUMA_BLUE * v.2) as nat, 1);
    lemma_nearest_close((LUMA_RED * v.0) as nat, 1);
    lemma_nearest_close((LUMA_GREEN * v.1) as nat, 1);
    lemma_nearest_close((LUMA_BLUE * v.2) as nat, 1);
    lemma_nearest_close(red + green, 1);
    let sum = nearest(red + green, 1);
    lemma_nearest_close(sum + blue, 1);
}

/// Scaling by a non-negative factor keeps order.
proof fn lemma_scale_between(k: int, lo: int, x: int, hi: int)
    requires
        k >= 0,
        lo <= x <= hi,
    ensures
        k * lo <= k * x <= k * hi,
{
    assert(k * lo <= k * x <= k * hi) by (nonlinear_arith)
        requires
            k >= 0,
            lo <= x <= hi,
    ;
}

/// The gray level of a color lies between its smallest and largest
/// components.
pub proof fn lemma_gray_level_bounds(v: Rgb)
    ensures
        min3(v) <= gray_level(v) <= max3(v),
{
    lemma_luma_close(v);
    let mx = max3(v) as int;
    let mn = min3(v) as int;
    let e = LUMA_RED * v.0 + LUMA_GREEN * v.1 + LUMA_BLUE * v.2;
    assert(v.0 <= mx && v.1 <= mx && v.2 <= mx && mn <= v.0 && mn <= v.1 && mn <= v.2);
    lemma_scale_between(LUMA_RED as int, mn, v.0 as int, mx);
    lemma_scale_between(LUMA_GREEN as int, mn, v.1 as int, mx);
    lemma_scale_between(LUMA_BLUE as int, mn, v.2 as int, mx);
    assert(e <= 0xff_ffff_ffff_fffd * mx);
    assert(e >= 0xff_ffff_ffff_fffd * mn);
    let x = luma_units(v) as int;
    assert(x + 0x80_0000_0000_0000 < (mx + 1) * 0x100_0000_0000_0000);
    assert(mn == 0 || x + 0x80_0000_0000_0000 >= mn * 0x100_0000_0000_0000);
}

/// A gray is its own grayscale, so converting to grayscale twice is the same
/// as converting once.
pub proof fn lemma_grayscale_idempotent(v: Rgb)
    ensures
        v.0 == v.1 && v.1 == v.2 ==> spec_grayscale(v) == v,
        spec_grayscale(spec_grayscale(v)) == spec_grayscale(v),
{
    lemma_gray_level_bounds(v);
    let g = spec_grayscale(v);
    lemma_gray_level_bounds(g);
}

/// The gray level of every color is the exact BT.709 weighted sum
/// `0.2126 R + 0.7152 G + 0.0722 B` rounded to a whole number: it lies within
/// one half of that sum (in ten-thousandths, within 5000).
pub proof fn lemma_gray_level_is_rounded_bt709(v: Rgb)
    ensures
        -5000 <= 10000 * gray_level(v) - (2126 * v.0 + 7152 * v.1 + 722 * v.2) <= 5000,
{
    lemma_luma_close(v);
    let x = luma_units(v) as int;
    let e = LUMA_RED * v.0 + LUMA_GREEN * v.1 + LUMA_BLUE * v.2;
    let s = 2126 * v.0 + 7152 * v.1 + 722 * v.2;
    let unit: int = 0x100_0000_0000_0000;
    let half: int = 0x80_0000_0000_0000;
    vstd::arithmetic::div_mod::lemma_fundamental_div_mod(x + half, unit);
    let q = (x + half) / unit;
    let rem = (x + half) % unit;
    assert(unit * q + rem == x + half);
    assert(0 <= rem < unit);
    assert(10000 * e == 2126 * v.0 * unit + 7152 * v.1 * unit + 722 * v.2 * unit + 8064 * v.0
        - 38272 * v.1 + 208 * v.2);
    assert(e <= 0xff_ffff_ffff_fffd * 255);
    assert(q <= 255);
    assert(gray_level(v) == q);
    let k = 10000 * q - s;
    assert(unit * k == 10000 * (unit * q - x) + 10000 * (x - e) + (10000 * e - unit * s));
    assert(-5001 * unit < unit * k < 5001 * unit);
}

/// Every hexadecimal digit, `0`-`9` and `a`-`f` in either case, is accepted
/// with its value: six copies of the digit of value `k` read as the gray whose
/// components are `17 * k`.
pub proof fn lemma_every_hex_digit_accepted(c: char, k: nat)
    requires
        k < 16,
        c == "0123456789abcdef"@[k as int] || c == "0123456789ABCDEF"@[k as int],
    ensures
        parse_hex(seq![c, c, c, c, c, c]) == Some(((17 * k) as u8, (17 * k) as u8, (17 * k) as u8)),
{
    reveal_strlit("0123456789abcdef");
    reveal_strlit("0123456789ABCDEF");
    let h = seq![c, c, c, c, c, c];
    assert(h[0] == c && h[1] == c && h[2] == c && h[3] == c && h[4] == c && h[5] == c);
    assert(strip_hash(h) == h);
    assert(is_hex_digit(c) && hex_value(c) == k);
}

/// A character is taken as a hex digit exactly when it is one of `0`-`9`,
/// `a`-`f` or `A`-`F`: six copies of it parse as a color exactly then.
pub proof fn lemma_hex_digits_are_exactly(c: char)
    ensures
        parse_hex(seq![c, c, c, c, c, c]) is Some <==> exists|k: int|
            0 <= k < 16 && (c == "0123456789abcdef"@[k] || c == "0123456789ABCDEF"@[k]),
{
    reveal_strlit("0123456789abcdef");
    reveal_strlit("0123456789ABCDEF");
    let h = seq![c, c, c, c, c, c];
    assert(h[0] == c && h[1] == c && h[2] == c && h[3] == c && h[4] == c && h[5] == c);
    if c == '#' {
        assert(strip_hash(h)[0] == '#');
    } else {
        assert(strip_hash(h) == h);
    }
    if is_hex_digit(c) {
        let k = hex_value(c) as int;
        assert(c == "0123456789abcdef"@[k] || c == "0123456789ABCDEF"@[k]);
    } else {
        assert(!all_hex_digits(strip_hash(h)));
        assert forall|k: int| 0 <= k < 16 implies !(c == "0123456789abcdef"@[k]
            || c == "0123456789ABCDEF"@[k]) by {
            assert(k == 0 || k == 1 || k == 2 || k == 3 || k == 4 || k == 5 || k == 6 || k == 7
                || k == 8 || k == 9 || k == 10 || k == 11 || k == 12 || k == 13 || k == 14
                || k == 15);
        }
    }
}

/// Hex digits are read without regard to case: a string parses as its ASCII
/// lowercase form does.
pub proof fn lemma_hex_ignores_case(s: Seq<char>)
    ensures
        parse_hex(s) == parse_hex(ascii_lowercase(s)),
{
    let l = ascii_lowercase(s);
    assert forall|i: int| 0 <= i < s.len() implies #[trigger] l[i] == ascii_lower_char(s[i])
        && (is_hex_digit(s[i]) <==> is_hex_digit(l[i]))
        && (is_hex_digit(s[i]) ==> hex_value(s[i]) == hex_value(l[i])) by {}
    let hs = strip_hash(s);
    let hl = strip_hash(l);
    assert(hl.len() == hs.len());
    assert forall|i: int| 0 <= i < hs.len() implies #[trigger] hl[i] == ascii_lower_char(hs[i]) by {
        if s.len() > 0 && s[0] == '#' {
            assert(hs[i] == s[i + 1]);
            assert(hl[i] == l[i + 1]);
        }
    }
    assert(all_hex_digits(hs) <==> all_hex_digits(hl)) by {
        if all_hex_digits(hs) {
            assert forall|i: int| 0 <= i < hl.len() implies #[trigger] is_hex_digit(hl[i]) by {
                assert(is_hex_digit(hs[i]));
            }
        }
        if all_hex_digits(hl) {
            assert forall|i: int| 0 <= i < hs.len() implies #[trigger] is_hex_digit(hs[i]) by {
                assert(is_hex_digit(hl[i]));
            }
        }
    }
    if all_hex_digits(hs) && (hs.len() == 6 || hs.len() == 3) {
        assert(is_hex_digit(hs[0]) && is_hex_digit(hs[1]) && is_hex_digit(hs[2]));
        assert(hex_value(hs[0]) == hex_value(hl[0]));
        assert(hex_value(hs[1]) == hex_value(hl[1]));
        assert(hex_value(hs[2]) == hex_value(hl[2]));
        if hs.len() == 6 {
            assert(is_hex_digit(hs[3]) && is_hex_digit(hs[4]) && is_hex_digit(hs[5]));
            assert(hex_value(hs[3]) == hex_value(hl[3]));
            assert(hex_value(hs[4]) == hex_value(hl[4]));
            assert(hex_value(hs[5]) == hex_value(hl[5]));
        }
    }
}

/// The hue, saturation and lightness that `to_hsl_string` prints lie in
/// 0..=360 degrees, 0..=100 percent and 0..=100 percent, for every color.
pub proof fn lemma_hsl_string_ranges(v: Rgb)
    ensures
        0 <= round_away(hsl_doubles(v).0) <= 360,
        0 <= round_away(hsl_doubles(v).1) <= 100,
        0 <= round_away(hsl_doubles(v).2) <= 100,
{
    lemma_spread(v);
    lemma_channel(v.0);
    lemma_channel(v.1);
    lemma_channel(v.2);
    let r = channel(v.0);
    let g = channel(v.1);
    let b = channel(v.2);
    let mx = max_of(r, g, b);
    let mn = min_of(r, g, b);
    lemma_nearest_signed_close(mx + mn);
    lemma_nearest_signed_close(mx - mn);
    let sum = nearest_signed(mx + mn, 1);
    lemma_nearest_close(sum as nat, 2);
    let l = nearest_signed(sum, 2);
    let d = nearest_signed(mx - mn, 1);
    lemma_nearest_signed_close(l * 100);
    if abs(d) >= epsilon() {
        if mx == mn {
            lemma_nearest_zero(1);
        }
        let s = saturation_double(mx, mn, sum, l, d);
        let h = hue_double(r, g, b, mx, d);
        lemma_saturation_double_range(mx, mn, sum, l, d);
        lemma_hue_double_range(r, g, b, d);
        lemma_nearest_signed_close(h * 60);
        lemma_nearest_signed_close(s * 100);
    }
}

/// The hue that `to_hsl_string` prints is the exact HSL hue of the color
/// rounded to a nearest whole degree: it differs from the exact hue
/// `hue_scaled(v) / (max3(v) - min3(v))` by at most one half, and so from
/// `hsl_hue(v)` by at most one. A gray prints hue 0.
pub proof fn lemma_hsl_string_hue_accurate(v: Rgb)
    ensures
        max3(v) != min3(v) ==> 2 * abs(round_away(hsl_doubles(v).0) * (max3(v) - min3(v))
            - hue_scaled(v)) <= max3(v) - min3(v),
        hsl_hue(v) - 1 <= round_away(hsl_doubles(v).0) <= hsl_hue(v) + 1,
        max3(v) == min3(v) ==> round_away(hsl_doubles(v).0) == 0,
{
    let r = channel(v.0);
    let g = channel(v.1);
    let b = channel(v.2);
    let mx = max_of(r, g, b);
    let mn = min_of(r, g, b);
    let d = nearest_signed(mx - mn, 1);
    lemma_extreme_channels(v);
    lemma_nearest_zero(1);
    if max3(v) != min3(v) {
        let m = max3(v) - min3(v);
        lemma_spread(v);
        lemma_channels_apart(min3(v), max3(v));
        lemma_channel(max3(v));
        lemma_nearest_signed_close(mx - mn);
        let h = hue_double(r, g, b, mx, d);
        lemma_hue_double_range(r, g, b, d);
        lemma_hue_double_accurate(v);
        lemma_nearest_signed_close(h * 60);
        let h60 = nearest_signed(h * 60, 1);
        assert(hsl_doubles(v).0 == h60);
        assert(-m * 0x4000_0000 <= h60 * m - 60 * h * m <= m * 0x4000_0000) by (nonlinear_arith)
            requires
                -0x4000_0000 <= h60 - h * 60 <= 0x4000_0000,
                m > 0,
        ;
        lemma_rounding_agrees(h60, hue_scaled(v) as int, m as int);
    }
}

/// The saturation and lightness that `to_hsl_string` prints are the exact
/// HSL saturation and lightness of the color rounded to a nearest whole
/// percent: the lightness differs from `100 * (max + min) / 510` and the
/// saturation from `100 * (max - min) / saturation_denominator(v)` by at most
/// one half, and so each from the exactly rounded value by at most one. A
/// gray prints saturation 0.
pub proof fn lemma_hsl_string_saturation_lightness_accurate(v: Rgb)
    ensures
        2 * abs(round_away(hsl_doubles(v).2) * 510 - 100 * (max3(v) + min3(v))) <= 510,
        max3(v) != min3(v) ==> 2 * abs(round_away(hsl_doubles(v).1) * saturation_denominator(v)
            - 100 * (max3(v) - min3(v))) <= saturation_denominator(v),
        hsl_saturation(v) - 1 <= round_away(hsl_doubles(v).1) <= hsl_saturation(v) + 1,
        hsl_lightness(v) - 1 <= round_away(hsl_doubles(v).2) <= hsl_lightness(v) + 1,
        max3(v) == min3(v) ==> round_away(hsl_doubles(v).1) == 0,
{
    let r = channel(v.0);
    let g = channel(v.1);
    let b = channel(v.2);
    let mx = max_of(r, g, b);
    let mn = min_of(r, g, b);
    let sum = nearest_signed(mx + mn, 1);
    let l = nearest_signed(sum, 2);
    let d = nearest_signed(mx - mn, 1);
    let total = max3(v) + min3(v);
    lemma_extreme_channels(v);
    lemma_nearest_zero(1);
    lemma_lightness_double_accurate(v);
    lemma_nearest_signed_close(l * 100);
    let l100 = nearest_signed(l * 100, 1);
    assert(hsl_doubles(v).2 == l100);
    lemma_rounding_agrees(l100, 100 * total, 510);
    if max3(v) != min3(v) {
        let m = max3(v) - min3(v);
        let k = saturation_denominator(v);
        lemma_channels_apart(min3(v), max3(v));
        lemma_channel(max3(v));
        lemma_channel(min3(v));
        lemma_nearest_signed_close(mx - mn);
        lemma_nearest_signed_close(mx + mn);
        lemma_nearest_close(sum as nat, 2);
        let s = saturation_double(mx, mn, sum, l, d);
        lemma_saturation_double_range(mx, mn, sum, l, d);
        lemma_saturation_double_accurate(v);
        lemma_nearest_signed_close(s * 100);
        let s100 = nearest_signed(s * 100, 1);
        assert(hsl_doubles(v).1 == s100);
        assert(-k * 0x4000_0000 <= s100 * k - 100 * s * k <= k * 0x4000_0000) by (nonlinear_arith)
            requires
                -0x4000_0000 <= s100 - s * 100 <= 0x4000_0000,
                k > 0,
        ;
        assert(100 * s * k - 100 * m * one() == 100 * (s * k - m * one())) by (nonlinear_arith);
        lemma_rounding_agrees(s100, 100 * m, k);
    }
}

/// A leading `#` is optional: the hex string with one parses as the hex
/// string without it, unless the rest starts with another `#`.
pub proof fn lemma_hash_optional(s: Seq<char>)
    requires
        s.len() == 0 || s[0] != '#',
    ensures
        parse_hex(seq!['#'] + s) == parse_hex(s),
{
    assert((seq!['#'] + s).skip(1) =~= s);
}

/// The short form `rgb` of a hex color stands for `rrggbb`.
pub proof fn lemma_short_form(x: char, y: char, z: char)
    ensures
        parse_hex_digits(seq![x, y, z]) == parse_hex_digits(seq![x, x, y, y, z, z]),
{
    let short = seq![x, y, z];
    let long = seq![x, x, y, y, z, z];
    if is_hex_digit(x) && is_hex_digit(y) && is_hex_digit(z) {
        assert(short[0] == x && short[1] == y && short[2] == z);
        assert(long[0] == x && long[1] == x && long[2] == y && long[3] == y && long[4] == z
            && long[5] == z);
    } else if !is_hex_digit(x) {
        assert(!is_hex_digit(short[0]) && !is_hex_digit(long[0]));
    } else if !is_hex_digit(y) {
        assert(!is_hex_digit(short[1]) && !is_hex_digit(long[2]));
    } else {
        assert(!is_hex_digit(short[2]) && !is_hex_digit(long[4]));
    }
}

/// ASCII lowercasing keeps text ASCII, and lowercasing it again changes
/// nothing.
pub proof fn lemma_ascii_lowercase_idempotent(s: Seq<char>)
    requires
        all_ascii(s),
    ensures
        all_ascii(ascii_lowercase(s)),
        ascii_lowercase(ascii_lowercase(s)) == ascii_lowercase(s),
{
    let l = ascii_lowercase(s);
    assert forall|i: int| 0 <= i < l.len() implies (#[trigger] l[i] as int) < 128 by {
        assert(l[i] == ascii_lower_char(s[i]));
        assert((s[i] as int) < 128);
    }
    assert(ascii_lowercase(l) =~= l);
}

/// Named-color lookup ignores ASCII case: two all-ASCII names that agree up
/// to case find the same color, so `Color::named(s)` is
/// `Color::named(&s.to_lowercase())` for every all-ASCII `s`.
pub proof fn lemma_named_ignores_ascii_case(s: Seq<char>, t: Seq<char>)
    requires
        all_ascii(s),
        all_ascii(t),
        ascii_lowercase(s) == ascii_lowercase(t),
    ensures
        css_lookup(ascii_lowercase(s)) == css_lookup(ascii_lowercase(t)),
        css_lookup(ascii_lowercase(ascii_lowercase(s))) == css_lookup(ascii_lowercase(s)),
{
    lemma_ascii_lowercase_idempotent(s);
}

/// Looking up from entry `i` finds a color exactly when some entry at `i` or
/// later has the name, and then it is the color of the first such entry.
proof fn lemma_lookup_from(name: Seq<char>, i: nat)
    ensures
        css_lookup_from(name, i) is Some <==> exists|j: nat|
            i <= j < CSS_COLOR_COUNT && (#[trigger] css_entry(j as usize)).0 == name,
        css_lookup_from(name, i) matches Some(c) ==> exists|j: nat|
            i <= j < CSS_COLOR_COUNT && (#[trigger] css_entry(j as usize)) == (name, c),
    decreases CSS_COLOR_COUNT - i,
{
    if i < CSS_COLOR_COUNT {
        lemma_lookup_from(name, i + 1);
        if css_entry(i as usize).0 == name {
            assert(css_entry(i as usize) == (name, css_entry(i as usize).1));
        } else {
            assert forall|j: nat| i <= j < CSS_COLOR_COUNT && (#[trigger] css_entry(j as usize)).0
                == name implies i + 1 <= j by {}
        }
    }
}

/// A name finds a color exactly when it is one of the table's names, and the
/// color found is that name's entry in the table.
pub proof fn lemma_lookup_finds_table_names(name: Seq<char>)
    ensures
        css_lookup(name) is Some <==> exists|j: nat|
            j < CSS_COLOR_COUNT && (#[trigger] css_entry(j as usize)).0 == name,
        css_lookup(name) matches Some(c) ==> exists|j: nat|
            j < CSS_COLOR_COUNT && (#[trigger] css_entry(j as usize)) == (name, c),
{
    lemma_lookup_from(name, 0);
}

} // verus!
