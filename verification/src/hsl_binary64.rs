//! The HSL components of a color as double-precision arithmetic computes them,
//! modelled exactly in integers.
//!
//! Values are counted in units of `2^-62`: every double met on the way (the
//! components divided by 255, their sums and differences, the quotients for
//! saturation and hue, and the results scaled to degrees and percent) is a
//! whole number of these units, and each step is rounded to the nearest double
//! as IEEE 754 arithmetic rounds it.

use vstd::prelude::*;

use crate::binary64::{lemma_nearest_zero, lemma_nearest_close, lemma_nearest_signed_close, nearest, nearest_exec, nearest_signed};
use crate::color::Rgb;
use crate::text::{dec_digits, push_decimal};

verus! {

/// One, in units of `2^-62`.
pub open spec fn one() -> int {
    0x4000_0000_0000_0000
}

/// The machine epsilon of doubles, `2^-52`, in units of `2^-62`.
pub open spec fn epsilon() -> int {
    0x400
}

/// The double nearest to a component divided by 255.
pub open spec fn channel(x: u8) -> int {
    nearest((x * one()) as nat, 255) as int
}

/// The double nearest to the quotient of the doubles `a` and `b`; `b` is
/// positive wherever the quotient is taken, and a non-positive `b` gives 0.
pub open spec fn quotient(a: int, b: int) -> int {
    if b > 0 {
        nearest_signed(a * one(), b as nat)
    } else {
        0
    }
}

/// The absolute value of `x`.
pub open spec fn abs(x: int) -> int {
    if x < 0 {
        -x
    } else {
        x
    }
}

/// The largest of three values.
pub open spec fn max_of(a: int, b: int, c: int) -> int {
    let m = if a >= b { a } else { b };
    if m >= c { m } else { c }
}

/// The smallest of three values.
pub open spec fn min_of(a: int, b: int, c: int) -> int {
    let m = if a <= b { a } else { b };
    if m <= c { m } else { c }
}

/// The HSL hue in degrees, saturation in percent and lightness in percent of
/// a color, as doubles: components divided by 255; lightness `(max + min) / 2`;
/// for a gray (`max - min` below epsilon) hue and saturation 0; otherwise
/// saturation and hue as `saturation_double` and `hue_double` give them; then
/// hue times 60, saturation and lightness times 100. Every operation is
/// rounded to the nearest double, left to right.
pub open spec fn hsl_doubles(v: Rgb) -> (int, int, int) {
    let r = channel(v.0);
    let g = channel(v.1);
    let b = channel(v.2);
    let mx = max_of(r, g, b);
    let mn = min_of(r, g, b);
    let sum = nearest_signed(mx + mn, 1);
    let l = nearest_signed(sum, 2);
    let d = nearest_signed(mx - mn, 1);
    if abs(d) < epsilon() {
        (0, 0, nearest_signed(l * 100, 1))
    } else {
        let s = saturation_double(mx, mn, sum, l, d);
        let h = hue_double(r, g, b, mx, d);
        (nearest_signed(h * 60, 1), nearest_signed(s * 100, 1), nearest_signed(l * 100, 1))
    }
}

/// The HSL saturation as a double, from the largest and smallest components
/// `mx` and `mn`, their sum `sum`, the lightness `l` and the chroma `d`:
/// `d / (2 - mx - mn)` above half lightness, `d / sum` else.
pub open spec fn saturation_double(mx: int, mn: int, sum: int, l: int, d: int) -> int {
    let den = if l > one() / 2 {
        nearest_signed(nearest_signed(2 * one() - mx, 1) - mn, 1)
    } else {
        sum
    };
    quotient(d, den)
}

/// The HSL hue as a double in sixths of a turn, from the components `r`,
/// `g`, `b`, the largest `mx` and the chroma `d`: `(g - b) / d` (plus 6 when
/// `g < b`) when red is the largest, else `(b - r) / d + 2` when green is,
/// else `(r - g) / d + 4`.
pub open spec fn hue_double(r: int, g: int, b: int, mx: int, d: int) -> int {
    if abs(nearest_signed(mx - r, 1)) < epsilon() {
        let q = quotient(nearest_signed(g - b, 1), d);
        if g < b {
            nearest_signed(q + 6 * one(), 1)
        } else {
            q
        }
    } else if abs(nearest_signed(mx - g, 1)) < epsilon() {
        nearest_signed(quotient(nearest_signed(b - r, 1), d) + 2 * one(), 1)
    } else {
        nearest_signed(quotient(nearest_signed(r - g, 1), d) + 4 * one(), 1)
    }
}

/// A double rounded to the nearest integer, halves away from zero.
pub open spec fn round_away(x: int) -> int {
    if x >= 0 {
        (x + one() / 2) / one()
    } else {
        -((-x + one() / 2) / one())
    }
}

/// The decimal form of an integer, with a `-` sign when it is negative.
pub open spec fn int_digits(n: int) -> Seq<char> {
    if n < 0 {
        seq!['-'] + dec_digits((-n) as nat)
    } else {
        dec_digits(n as nat)
    }
}

/// The `hsl(h, s%, l%)` form of a color: the double-precision hue, saturation
/// and lightness each rounded to the nearest integer, halves away from zero.
pub open spec fn hsl_string(v: Rgb) -> Seq<char> {
    let (h, s, l) = hsl_doubles(v);
    "hsl("@ + int_digits(round_away(h)) + ", "@ + int_digits(round_away(s)) + "%, "@
        + int_digits(round_away(l)) + "%)"@
}

/// Facts on a component divided by 255 as a double: it lies within `2^30`
/// units of the exact quotient, so between 0 and a little over one, and it
/// is 0 exactly for the component 0.
pub proof fn lemma_channel(x: u8)
    ensures
        (x * one()) / 255 - 0x4000_0000 <= channel(x) <= (x * one()) / 255 + 0x4000_0000,
        0 <= channel(x) <= one() + 0x4000_0000,
        x == 0 ==> channel(x) == 0,
{
    lemma_nearest_close((x * one()) as nat, 255);
    if x == 0 {
        lemma_nearest_zero(255);
    }
}

/// Different components divided by 255 give doubles at least about 1/255
/// apart.
pub proof fn lemma_channels_apart(x: u8, y: u8)
    requires
        x < y,
    ensures
        channel(y) - channel(x) >= one() / 255 - 0x8000_0001,
{
    lemma_channel(x);
    lemma_channel(y);
    assert((y * one()) / 255 >= (x * one()) / 255 + one() / 255 - 1);
}

/// The components divided by 255 are either all equal or spread by about
/// 1/255 at least.
pub proof fn lemma_spread(v: Rgb)
    ensures
        ({
            let (r, g, b) = (channel(v.0), channel(v.1), channel(v.2));
            ||| max_of(r, g, b) == min_of(r, g, b)
            ||| max_of(r, g, b) - min_of(r, g, b) >= one() / 255 - 0x8000_0001
        }),
        0 <= min_of(channel(v.0), channel(v.1), channel(v.2)),
        max_of(channel(v.0), channel(v.1), channel(v.2)) <= one() + 0x4000_0000,
{
    lemma_channel(v.0);
    lemma_channel(v.1);
    lemma_channel(v.2);
    if v.0 < v.1 {
        lemma_channels_apart(v.0, v.1);
    } else if v.1 < v.0 {
        lemma_channels_apart(v.1, v.0);
    }
    if v.0 < v.2 {
        lemma_channels_apart(v.0, v.2);
    } else if v.2 < v.0 {
        lemma_channels_apart(v.2, v.0);
    }
    if v.1 < v.2 {
        lemma_channels_apart(v.1, v.2);
    } else if v.2 < v.1 {
        lemma_channels_apart(v.2, v.1);
    }
}

/// A quotient of doubles of size at most 2 by a double of at least 1/256
/// stays below `2^72` units.
pub proof fn lemma_quotient_small(a: int, b: int)
    requires
        abs(a) <= 2 * one(),
        b >= one() / 256,
    ensures
        abs(a * one()) / b < 0x100_0000_0000_0000_0000,
{
    let n = abs(a * one());
    assert(n <= 2 * one() * one()) by (nonlinear_arith)
        requires
            n == abs(a * one()),
            abs(a) <= 2 * one(),
    ;
    vstd::arithmetic::div_mod::lemma_div_is_ordered(n, 2 * one() * one(), b);
    vstd::arithmetic::div_mod::lemma_div_is_ordered_by_denominator(
        2 * one() * one(),
        one() / 256,
        b,
    );
    assert(one() / 256 == 0x40_0000_0000_0000);
    assert(2 * one() * one() == 0x40_0000_0000_0000 * 0x80_0000_0000_0000_0000);
    vstd::arithmetic::div_mod::lemma_div_by_multiple(0x80_0000_0000_0000_0000, 0x40_0000_0000_0000);
}

/// A quotient of doubles of size at most 2 by a double of at least 1/256
/// rounds to at most `2^72` units either way.
pub proof fn lemma_quotient_bound(a: int, b: int)
    requires
        abs(a) <= 2 * one(),
        b >= one() / 256,
    ensures
        abs(quotient(a, b)) <= 0x100_0000_0000_0000_0000 + 0x4000_0000,
{
    lemma_quotient_small(a, b);
    if a >= 0 {
        lemma_nearest_close((a * one()) as nat, b as nat);
    } else {
        assert((-a) * one() == -(a * one()));
        lemma_nearest_close(((-a) * one()) as nat, b as nat);
    }
}

/// The quotient of a double `a` by a double `d` of at least 1/256, where `a`
/// exceeds `d` in size by at most `2^33` units, lies within about 1 either way
/// and has the sign of `a`.
pub proof fn lemma_quotient_near_unit(a: int, d: int)
    requires
        abs(a) <= d + 0x2_0000_0000,
        one() / 256 <= d <= one() + 0x2_0000_0000,
    ensures
        -one() - 0x400_0000_0000 <= quotient(a, d) <= one() + 0x400_0000_0000,
        a >= 0 ==> quotient(a, d) >= 0,
        a <= 0 ==> quotient(a, d) <= 0,
{
    lemma_quotient_small(a, d);
    let m = abs(a);
    let n = m * one();
    assert(n == abs(a * one())) by (nonlinear_arith)
        requires
            m == abs(a),
            n == m * one(),
    ;
    assert(n <= (d + 0x2_0000_0000) * one()) by (nonlinear_arith)
        requires
            0 <= m <= d + 0x2_0000_0000,
            n == m * one(),
    ;
    vstd::arithmetic::div_mod::lemma_div_is_ordered(n, (d + 0x2_0000_0000) * one(), d);
    assert((d + 0x2_0000_0000) * one() == 0x2_0000_0000 * one() + one() * d) by (nonlinear_arith);
    vstd::arithmetic::div_mod::lemma_hoist_over_denominator(0x2_0000_0000 * one(), one(), d as nat);
    vstd::arithmetic::div_mod::lemma_div_is_ordered_by_denominator(
        0x2_0000_0000 * one(),
        one() / 256,
        d,
    );
    assert(0x2_0000_0000 * one() == 0x200_0000_0000 * (one() / 256));
    vstd::arithmetic::div_mod::lemma_div_by_multiple(0x200_0000_0000int, one() / 256);
    assert(n / d <= one() + 0x200_0000_0000);
    lemma_nearest_close(n as nat, d as nat);
    if a < 0 {
        assert((-a) * one() == -(a * one()));
    }
}

/// The hue of a chromatic color as a double, in sixths of a turn, lies
/// between 0 and a little over 6.
pub proof fn lemma_hue_double_range(r: int, g: int, b: int, d: int)
    requires
        0 <= r,
        0 <= g,
        0 <= b,
        max_of(r, g, b) - min_of(r, g, b) - 0x4000_0000 <= d,
        d <= max_of(r, g, b) - min_of(r, g, b) + 0x4000_0000,
        max_of(r, g, b) <= one() + 0x4000_0000,
        one() / 256 <= d,
    ensures
        0 <= hue_double(r, g, b, max_of(r, g, b), d) <= 6 * one() + 0x4000_0000,
{
    let mx = max_of(r, g, b);
    lemma_nearest_signed_close(g - b);
    lemma_nearest_signed_close(b - r);
    lemma_nearest_signed_close(r - g);
    let gb = nearest_signed(g - b, 1);
    let br = nearest_signed(b - r, 1);
    let rg = nearest_signed(r - g, 1);
    lemma_quotient_near_unit(gb, d);
    lemma_quotient_near_unit(br, d);
    lemma_quotient_near_unit(rg, d);
    let q1 = quotient(gb, d);
    let q2 = quotient(br, d);
    let q3 = quotient(rg, d);
    lemma_nearest_signed_close(q1 + 6 * one());
    lemma_nearest_signed_close(q2 + 2 * one());
    lemma_nearest_signed_close(q3 + 4 * one());
}

/// The saturation of a chromatic color as a double lies between 0 and a
/// little over 1.
pub proof fn lemma_saturation_double_range(mx: int, mn: int, sum: int, l: int, d: int)
    requires
        0 <= mn <= mx <= one() + 0x4000_0000,
        mx - mn >= one() / 255 - 0x8000_0001,
        mx + mn - 0x4000_0000 <= sum <= mx + mn + 0x4000_0000,
        sum / 2 - 0x4000_0000 <= l <= sum / 2 + 0x4000_0000,
        mx - mn - 0x4000_0000 <= d <= mx - mn + 0x4000_0000,
    ensures
        0 <= saturation_double(mx, mn, sum, l, d) <= one() + 0x400_0000_0000,
{
    lemma_nearest_signed_close(2 * one() - mx);
    let t = nearest_signed(2 * one() - mx, 1);
    lemma_nearest_signed_close(t - mn);
    if l > one() / 2 {
        lemma_quotient_near_unit(d, nearest_signed(t - mn, 1));
    } else {
        lemma_quotient_near_unit(d, sum);
    }
}

/// The double nearest to `x / d`.
pub(crate) fn nearest_signed_exec(x: i128, d: u128) -> (res: i128)
    requires
        d > 0,
        -0x2000_0000_0000_0000_0000_0000_0000_0000 < x < 0x2000_0000_0000_0000_0000_0000_0000_0000,
        abs(x as int) / (d as int) < 0x8_0000_0000_0000_0000_0000,
    ensures
        res == nearest_signed(x as int, d as nat),
{
    if x >= 0 {
        proof {
            lemma_nearest_close(x as nat, d as nat);
        }
        nearest_exec(x as u128, d) as i128
    } else {
        proof {
            lemma_nearest_close((-x) as nat, d as nat);
        }
        -(nearest_exec((-x) as u128, d) as i128)
    }
}

/// The double nearest to the quotient of the doubles `a` and `b`.
pub(crate) fn quotient_exec(a: i128, b: i128) -> (res: i128)
    requires
        -0x8000_0000_0000_0000 < a < 0x8000_0000_0000_0000,
        b > 0,
        abs(a * one()) / (b as int) < 0x8_0000_0000_0000_0000_0000,
    ensures
        res == quotient(a as int, b as int),
{
    nearest_signed_exec(a * 0x4000_0000_0000_0000, b as u128)
}

/// The double nearest to a component divided by 255.
fn channel_exec(x: u8) -> (c: i128)
    ensures
        c == channel(x),
{
    proof {
        lemma_channel(x);
    }
    nearest_exec(x as u128 * 0x4000_0000_0000_0000, 255) as i128
}

/// The saturation as a double.
fn saturation_exec(mx: i128, mn: i128, sum: i128, l: i128, d: i128) -> (s: i128)
    requires
        0 <= mn <= mx <= one() + 0x4000_0000,
        mx - mn >= one() / 255 - 0x8000_0001,
        mx + mn - 0x4000_0000 <= sum <= mx + mn + 0x4000_0000,
        0 <= sum,
        mx - mn - 0x4000_0000 <= d <= mx - mn + 0x4000_0000,
    ensures
        s == saturation_double(mx as int, mn as int, sum as int, l as int, d as int),
        abs(s as int) <= 0x100_0000_0000_0000_0000 + 0x4000_0000,
{
    let den = if l > 0x2000_0000_0000_0000 {
        proof {
            lemma_nearest_signed_close(2 * one() - mx);
        }
        let t = nearest_signed_exec(0x8000_0000_0000_0000 - mx, 1);
        proof {
            lemma_nearest_signed_close(t - mn);
        }
        nearest_signed_exec(t - mn, 1)
    } else {
        sum
    };
    assert(den >= one() / 256);
    proof {
        lemma_quotient_small(d as int, den as int);
        lemma_quotient_bound(d as int, den as int);
    }
    quotient_exec(d, den)
}

/// The hue as a double, in sixths of a turn.
fn hue_exec(r: i128, g: i128, b: i128, mx: i128, d: i128) -> (h: i128)
    requires
        0 <= r <= one() + 0x4000_0000,
        0 <= g <= one() + 0x4000_0000,
        0 <= b <= one() + 0x4000_0000,
        0 <= mx <= one() + 0x4000_0000,
        one() / 256 <= d <= 2 * one(),
    ensures
        h == hue_double(r as int, g as int, b as int, mx as int, d as int),
        abs(h as int) <= 0x100_0000_0000_0000_0000 + 0x2_0000_0000_0000_0000,
{
    proof {
        lemma_nearest_signed_close(mx - r);
        lemma_nearest_signed_close(mx - g);
        lemma_nearest_signed_close(g - b);
        lemma_nearest_signed_close(b - r);
        lemma_nearest_signed_close(r - g);
    }
    let dr = nearest_signed_exec(mx - r, 1);
    if -0x400 < dr && dr < 0x400 {
        let gb = nearest_signed_exec(g - b, 1);
        proof {
            lemma_quotient_small(gb as int, d as int);
            lemma_quotient_bound(gb as int, d as int);
        }
        let q = quotient_exec(gb, d);
        if g < b {
            proof {
                lemma_nearest_signed_close(q + 6 * one());
            }
            nearest_signed_exec(q + 0x1_8000_0000_0000_0000, 1)
        } else {
            q
        }
    } else {
        let dg = nearest_signed_exec(mx - g, 1);
        if -0x400 < dg && dg < 0x400 {
            let br = nearest_signed_exec(b - r, 1);
            proof {
                lemma_quotient_small(br as int, d as int);
                lemma_quotient_bound(br as int, d as int);
            }
            let q = quotient_exec(br, d);
            proof {
                lemma_nearest_signed_close(q + 2 * one());
            }
            nearest_signed_exec(q + 0x8000_0000_0000_0000, 1)
        } else {
            let rg = nearest_signed_exec(r - g, 1);
            proof {
                lemma_quotient_small(rg as int, d as int);
                lemma_quotient_bound(rg as int, d as int);
            }
            let q = quotient_exec(rg, d);
            proof {
                lemma_nearest_signed_close(q + 4 * one());
            }
            nearest_signed_exec(q + 0x1_0000_0000_0000_0000, 1)
        }
    }
}

/// The hue in degrees, saturation and lightness in percent of a color, as
/// doubles (in units of `2^-62`).
pub(crate) fn hsl_doubles_exec(x: u8, y: u8, z: u8) -> (res: (i128, i128, i128))
    ensures
        (res.0 as int, res.1 as int, res.2 as int) == hsl_doubles((x, y, z)),
        -0x1_0000_0000_0000_0000_0000 < res.0 < 0x1_0000_0000_0000_0000_0000,
        -0x1_0000_0000_0000_0000_0000 < res.1 < 0x1_0000_0000_0000_0000_0000,
        -0x1_0000_0000_0000_0000_0000 < res.2 < 0x1_0000_0000_0000_0000_0000,
{
    let ghost v: Rgb = (x, y, z);
    proof {
        lemma_spread(v);
        lemma_channel(x);
        lemma_channel(y);
        lemma_channel(z);
    }
    let r = channel_exec(x);
    let g = channel_exec(y);
    let b = channel_exec(z);
    let m1 = if r >= g { r } else { g };
    let mx = if m1 >= b { m1 } else { b };
    let m2 = if r <= g { r } else { g };
    let mn = if m2 <= b { m2 } else { b };
    assert(mx == max_of(r as int, g as int, b as int));
    assert(mn == min_of(r as int, g as int, b as int));
    proof {
        lemma_nearest_signed_close(mx + mn);
        lemma_nearest_signed_close(mx - mn);
    }
    let sum = nearest_signed_exec(mx + mn, 1);
    assert(sum >= 0);
    proof {
        lemma_nearest_close(sum as nat, 2);
    }
    let l = nearest_signed_exec(sum, 2);
    let d = nearest_signed_exec(mx - mn, 1);
    assert(d >= 0);
    proof {
        lemma_nearest_signed_close(l * 100);
    }
    let l100 = nearest_signed_exec(l * 100, 1);
    if d < 0x400 {
        return (0, 0, l100);
    }
    proof {
        if mx == mn {
            lemma_nearest_zero(1);
        }
        assert(mx - mn >= one() / 255 - 0x8000_0001);
    }
    let s = saturation_exec(mx, mn, sum, l, d);
    let h = hue_exec(r, g, b, mx, d);
    proof {
        lemma_nearest_signed_close(h * 60);
    }
    let h60 = nearest_signed_exec(h * 60, 1);
    proof {
        lemma_nearest_signed_close(s * 100);
    }
    let s100 = nearest_signed_exec(s * 100, 1);
    (h60, s100, l100)
}

/// A double rounded to the nearest integer, halves away from zero.
pub(crate) fn round_away_exec(x: i128) -> (n: i128)
    requires
        -0x1_0000_0000_0000_0000_0000 < x < 0x1_0000_0000_0000_0000_0000,
    ensures
        n == round_away(x as int),
        -0x10_0000 < n < 0x10_0000,
{
    if x >= 0 {
        (x + 0x2000_0000_0000_0000) / 0x4000_0000_0000_0000
    } else {
        -((-x + 0x2000_0000_0000_0000) / 0x4000_0000_0000_0000)
    }
}

/// Append the decimal form of `n`, with a `-` sign when it is negative.
pub(crate) fn push_int(s: &mut String, n: i128)
    requires
        -0x1_0000_0000 < n < 0x1_0000_0000,
    ensures
        final(s)@ == old(s)@ + int_digits(n as int),
{
    if n < 0 {
        s.append("-");
        proof {
            reveal_strlit("-");
        }
        push_decimal(s, (-n) as u32);
        assert(final(s)@ =~= old(s)@ + int_digits(n as int));
    } else {
        push_decimal(s, n as u32);
    }
}

} // verus!
