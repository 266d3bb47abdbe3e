//! The double-precision HSL values stay close to the exact ones: each printed
//! whole number lies within one half of the exact value, so at most one away
//! from the exactly rounded values of `hsl`. Errors are tracked on values
//! scaled by 255, where a component `x` stands for exactly `x * one()`.

use vstd::prelude::*;

use crate::binary64::{lemma_nearest_close, lemma_nearest_signed_close, lemma_nearest_zero, nearest, nearest_signed};
use crate::color::Rgb;
use crate::hsl::{hue_scaled, max3, min3, round_div};
use crate::hsl_binary64::{
    abs, channel, hue_double, lemma_channel, lemma_channels_apart, lemma_quotient_near_unit,
    lemma_quotient_small, max_of, min_of, one, quotient, round_away, saturation_double,
};

verus! {

/// A component divided by 255 as a double, scaled back by 255, is within
/// `2^38` units of the component itself.
pub proof fn lemma_channel_scaled(x: u8)
    ensures
        -0x40_0000_0000 <= 255 * channel(x) - x * one() <= 0x40_0000_0000,
{
    lemma_channel(x);
    vstd::arithmetic::div_mod::lemma_fundamental_div_mod(x * one(), 255);
}

/// Larger components give larger doubles, so the largest and smallest of the
/// doubles are those of the largest and smallest components.
pub proof fn lemma_extreme_channels(v: Rgb)
    ensures
        max_of(channel(v.0), channel(v.1), channel(v.2)) == channel(max3(v)),
        min_of(channel(v.0), channel(v.1), channel(v.2)) == channel(min3(v)),
{
    if v.0 < v.1 {
        lemma_channels_apart(v.0, v.1);
    } else if v.1 < v.0 {
        lemma_channels_apart(v.1, v.0);
    }
    if v.0 < v.2 {
        lemma_channels_apart(v.0, v.2);
    } else if v.2 < v.0 {
        lemma_channels_apart(v.2, v.0);
    }
    if v.1 < v.2 {
        lemma_channels_apart(v.1, v.2);
    } else if v.2 < v.1 {
        lemma_channels_apart(v.2, v.1);
    }
}

/// The rounded difference of two component doubles, scaled by 255, is within
/// `2^40` units of the difference of the components.
pub proof fn lemma_difference_scaled(x: u8, y: u8)
    ensures
        -0x100_0000_0000 <= 255 * nearest_signed(channel(x) - channel(y), 1) - (x - y) * one()
            <= 0x100_0000_0000,
        abs(nearest_signed(channel(x) - channel(y), 1) - (channel(x) - channel(y)))
            <= 0x4000_0000,
{
    lemma_channel_scaled(x);
    lemma_channel_scaled(y);
    lemma_channel(x);
    lemma_channel(y);
    lemma_nearest_signed_close(channel(x) - channel(y));
}

/// The double quotient `a / d`, where `a` and `d` stand for `n` and `m` as
/// the rounded differences of `lemma_difference_scaled` do, is within
/// `2^43` units of `n / m`, the error scaled by `m`.
pub proof fn lemma_quotient_accurate(a: int, d: int, n: int, m: int)
    requires
        0 < m <= 255,
        abs(n) <= m,
        -0x100_0000_0000 <= 255 * a - n * one() <= 0x100_0000_0000,
        -0x100_0000_0000 <= 255 * d - m * one() <= 0x100_0000_0000,
        abs(a) <= d + 0x2_0000_0000,
        one() / 256 <= d <= one() + 0x2_0000_0000,
    ensures
        -m * 0x800_0000_0000 <= quotient(a, d) * m - n * one() <= m * 0x800_0000_0000,
{
    let q = quotient(a, d);
    lemma_quotient_small(a, d);
    lemma_quotient_near_unit(a, d);
    let big = abs(a * one());
    vstd::arithmetic::div_mod::lemma_fundamental_div_mod(big, d);
    let f = big / d;
    lemma_nearest_close(big as nat, d as nat);
    assert(d * f <= big < d * f + d);
    let t = q * d - a * one();
    if a >= 0 {
        assert(a * one() >= 0);
        assert(big == a * one());
        assert(q == nearest(big as nat, d as nat));
        assert(f - 0x4000_0000 <= q <= f + 0x4000_0000);
        assert(d * f - 0x4000_0000 * d <= q * d <= d * f + 0x4000_0000 * d) by (nonlinear_arith)
            requires
                f - 0x4000_0000 <= q <= f + 0x4000_0000,
                d > 0,
        ;
        assert(-0x4000_0001 * d <= t <= 0x4000_0001 * d);
    } else {
        assert(a * one() < 0);
        assert(big == -(a * one()));
        assert(q == -nearest(big as nat, d as nat));
        assert(f - 0x4000_0000 <= -q <= f + 0x4000_0000);
        assert(d * f - 0x4000_0000 * d <= -(q * d) <= d * f + 0x4000_0000 * d) by (nonlinear_arith)
            requires
                f - 0x4000_0000 <= -q <= f + 0x4000_0000,
                d > 0,
        ;
        assert(-0x4000_0001 * d <= t <= 0x4000_0001 * d);
    }
    let ea = 255 * a - n * one();
    let ed = 255 * d - m * one();
    assert(255 * (a * m - n * d) == m * ea - n * ed) by (nonlinear_arith)
        requires
            ea == 255 * a - n * one(),
            ed == 255 * d - m * one(),
    ;
    assert(-2 * m * 0x100_0000_0000 <= m * ea - n * ed <= 2 * m * 0x100_0000_0000) by (nonlinear_arith)
        requires
            -0x100_0000_0000 <= ea <= 0x100_0000_0000,
            -0x100_0000_0000 <= ed <= 0x100_0000_0000,
            abs(n) <= m,
            m > 0,
    ;
    let w = a * m - n * d;
    assert(-m * 0x4_0000_0000 <= w <= m * 0x4_0000_0000);
    let e = q * m - n * one();
    assert(d * e == m * t + one() * w) by (nonlinear_arith)
        requires
            e == q * m - n * one(),
            t == q * d - a * one(),
            w == a * m - n * d,
    ;
    assert(-m * 0x4000_0001 * d <= m * t <= m * 0x4000_0001 * d) by (nonlinear_arith)
        requires
            -0x4000_0001 * d <= t <= 0x4000_0001 * d,
            m > 0,
    ;
    assert(-m * 0x4_0000_0000 * (256 * d) <= one() * w <= m * 0x4_0000_0000 * (256 * d)) by (nonlinear_arith)
        requires
            -m * 0x4_0000_0000 <= w <= m * 0x4_0000_0000,
            one() <= 256 * d,
            m > 0,
    ;
    assert(-(m * 0x800_0000_0000) * d <= d * e <= (m * 0x800_0000_0000) * d) by (nonlinear_arith)
        requires
            d * e == m * t + one() * w,
            -m * 0x4000_0001 * d <= m * t <= m * 0x4000_0001 * d,
            -m * 0x4_0000_0000 * (256 * d) <= one() * w <= m * 0x4_0000_0000 * (256 * d),
            m > 0,
            d > 0,
    ;
    assert(-(m * 0x800_0000_0000) <= e <= m * 0x800_0000_0000) by (nonlinear_arith)
        requires
            -(m * 0x800_0000_0000) * d <= d * e <= (m * 0x800_0000_0000) * d,
            d > 0,
    ;
}

/// A double `x` within `2^51` units of the exact quotient `n / m` (the error
/// scaled by `m`) rounds, halves away from zero, to a whole number within one
/// half of `n / m`, and so within one of `n / m` rounded with halves up.
pub proof fn lemma_rounding_agrees(x: int, n: int, m: int)
    requires
        x >= 0,
        n >= 0,
        0 < m <= 0x200,
        -m * 0x8_0000_0000_0000 <= x * m - n * one() <= m * 0x8_0000_0000_0000,
    ensures
        -m <= 2 * (round_away(x) * m - n) <= m,
        round_div(n as nat, m as nat) - 1 <= round_away(x) <= round_div(n as nat, m as nat) + 1,
{
    let a = round_away(x);
    let b = round_div(n as nat, m as nat) as int;
    vstd::arithmetic::div_mod::lemma_fundamental_div_mod(x + one() / 2, one());
    vstd::arithmetic::div_mod::lemma_fundamental_div_mod(2 * n + m, 2 * m);
    assert(a * one() <= x + one() / 2 < a * one() + one());
    let am = a * m;
    let xm = x * m;
    assert(am * 0x4000_0000_0000_0000 <= xm + m * 0x2000_0000_0000_0000
        < am * 0x4000_0000_0000_0000 + m * 0x4000_0000_0000_0000) by (nonlinear_arith)
        requires
            a * one() <= x + one() / 2 < a * one() + one(),
            one() == 0x4000_0000_0000_0000,
            m > 0,
            am == a * m,
            xm == x * m,
    ;
    assert(-m * 0x8_0000_0000_0000 <= xm - n * 0x4000_0000_0000_0000 <= m * 0x8_0000_0000_0000);
    let z = 2 * (am - n);
    assert(z * 0x4000_0000_0000_0000 < (m + 1) * 0x4000_0000_0000_0000);
    assert(z * 0x4000_0000_0000_0000 > -(m + 1) * 0x4000_0000_0000_0000);
    assert(2 * m * b <= 2 * n + m < 2 * m * b + 2 * m) by (nonlinear_arith)
        requires
            b == (2 * n + m) / (2 * m),
            (2 * m) * ((2 * n + m) / (2 * m)) + (2 * n + m) % (2 * m) == 2 * n + m,
            0 <= (2 * n + m) % (2 * m) < 2 * m,
    ;
    assert(a <= b + 1) by (nonlinear_arith)
        requires
            -m <= 2 * (a * m - n) <= m,
            2 * m * b <= 2 * n + m < 2 * m * b + 2 * m,
            m > 0,
    ;
    assert(b - 1 <= a) by (nonlinear_arith)
        requires
            -m <= 2 * (a * m - n) <= m,
            2 * m * b <= 2 * n + m,
            m > 0,
    ;
}

/// A quotient within `2^43` units of `n / m` (error scaled by `m`), shifted
/// by `k` and rounded, then taken 60 times, is within `2^49` units of
/// `60 * (n / m + k)`.
proof fn lemma_shifted_sixths(q: int, h: int, k: int, n: int, m: int)
    requires
        m > 0,
        -m * 0x800_0000_0000 <= q * m - n * one() <= m * 0x800_0000_0000,
        -0x4000_0000 <= h - (q + k * one()) <= 0x4000_0000,
    ensures
        -m * 0x2_0000_0000_0000 <= 60 * h * m - 60 * (n + k * m) * one()
            <= m * 0x2_0000_0000_0000,
{
    let e = h - (q + k * one());
    assert(60 * h * m - 60 * (n + k * m) * one() == 60 * (q * m - n * one()) + 60 * (m * e))
        by (nonlinear_arith)
        requires
            e == h - (q + k * one()),
    ;
    assert(-m * 0x4000_0000 <= m * e <= m * 0x4000_0000) by (nonlinear_arith)
        requires
            -0x4000_0000 <= e <= 0x4000_0000,
            m > 0,
    ;
}

/// The double hue of a chromatic color (sixths of a turn) taken 60 times is
/// within `2^49` units of the exact hue in degrees, the error scaled by the
/// chroma `max3(v) - min3(v)`.
pub proof fn lemma_hue_double_accurate(v: Rgb)
    requires
        max3(v) != min3(v),
    ensures
        ({
            let (r, g, b) = (channel(v.0), channel(v.1), channel(v.2));
            let mx = max_of(r, g, b);
            let d = nearest_signed(mx - min_of(r, g, b), 1);
            let m = max3(v) - min3(v);
            let h = hue_double(r, g, b, mx, d);
            -m * 0x2_0000_0000_0000 <= 60 * h * m - hue_scaled(v) * one()
                <= m * 0x2_0000_0000_0000
        }),
{
    let (r, g, b) = (channel(v.0), channel(v.1), channel(v.2));
    lemma_extreme_channels(v);
    let mx = max_of(r, g, b);
    let mn = min_of(r, g, b);
    let d = nearest_signed(mx - mn, 1);
    let m = max3(v) - min3(v);
    lemma_channels_apart(min3(v), max3(v));
    lemma_difference_scaled(max3(v), min3(v));
    lemma_channel(max3(v));
    lemma_channel(min3(v));
    lemma_nearest_zero(1);
    lemma_difference_scaled(v.1, v.2);
    lemma_difference_scaled(v.2, v.0);
    lemma_difference_scaled(v.0, v.1);
    if v.0 < max3(v) {
        lemma_channels_apart(v.0, max3(v));
    }
    if v.1 < max3(v) {
        lemma_channels_apart(v.1, max3(v));
    }
    lemma_nearest_signed_close(mx - r);
    lemma_nearest_signed_close(mx - g);
    if v.1 < v.2 {
        lemma_channels_apart(v.1, v.2);
    } else if v.2 < v.1 {
        lemma_channels_apart(v.2, v.1);
    }
    let h = hue_double(r, g, b, mx, d);
    if max3(v) == v.0 {
        let a = nearest_signed(g - b, 1);
        let n = v.1 - v.2;
        lemma_quotient_accurate(a, d, n, m);
        lemma_quotient_near_unit(a, d);
        let q = quotient(a, d);
        if v.1 < v.2 {
            lemma_nearest_signed_close(q + 6 * one());
            lemma_shifted_sixths(q, h, 6, n, m);
        } else {
            lemma_shifted_sixths(q, h, 0, n, m);
        }
    } else if max3(v) == v.1 {
        let a = nearest_signed(b - r, 1);
        let n = v.2 - v.0;
        lemma_quotient_accurate(a, d, n, m);
        lemma_quotient_near_unit(a, d);
        let q = quotient(a, d);
        lemma_nearest_signed_close(q + 2 * one());
        lemma_shifted_sixths(q, h, 2, n, m);
    } else {
        let a = nearest_signed(r - g, 1);
        let n = v.0 - v.1;
        lemma_quotient_accurate(a, d, n, m);
        lemma_quotient_near_unit(a, d);
        let q = quotient(a, d);
        lemma_nearest_signed_close(q + 4 * one());
        lemma_shifted_sixths(q, h, 4, n, m);
    }
}

/// The double sum of the largest and smallest component doubles, scaled by
/// 255, is within `2^40` units of the exact sum of the two components, and
/// the double lightness, scaled by 510, within `2^41` units.
pub proof fn lemma_lightness_double_accurate(v: Rgb)
    ensures
        ({
            let (r, g, b) = (channel(v.0), channel(v.1), channel(v.2));
            let sum = nearest_signed(max_of(r, g, b) + min_of(r, g, b), 1);
            let l = nearest_signed(sum, 2);
            &&& -0x100_0000_0000 <= 255 * sum - (max3(v) + min3(v)) * one() <= 0x100_0000_0000
            &&& -0x200_0000_0000 <= 510 * l - (max3(v) + min3(v)) * one() <= 0x200_0000_0000
            &&& 0 <= sum
            &&& 0 <= l
        }),
{
    let (r, g, b) = (channel(v.0), channel(v.1), channel(v.2));
    lemma_extreme_channels(v);
    lemma_channel_scaled(max3(v));
    lemma_channel_scaled(min3(v));
    lemma_channel(max3(v));
    lemma_channel(min3(v));
    let t = max_of(r, g, b) + min_of(r, g, b);
    lemma_nearest_signed_close(t);
    let sum = nearest_signed(t, 1);
    lemma_nearest_close(sum as nat, 2);
}

/// The exact denominator of the HSL saturation: the sum of the largest and
/// smallest components, or 510 less that sum above half lightness.
pub open spec fn saturation_denominator(v: Rgb) -> int {
    let sum = max3(v) + min3(v);
    if sum > 255 {
        510 - sum
    } else {
        sum
    }
}

/// The double saturation of a chromatic color is within `2^43` units of the
/// exact quotient of the chroma by `saturation_denominator`, the error scaled
/// by that denominator.
pub proof fn lemma_saturation_double_accurate(v: Rgb)
    requires
        max3(v) != min3(v),
    ensures
        ({
            let (r, g, b) = (channel(v.0), channel(v.1), channel(v.2));
            let mx = max_of(r, g, b);
            let mn = min_of(r, g, b);
            let sum = nearest_signed(mx + mn, 1);
            let l = nearest_signed(sum, 2);
            let d = nearest_signed(mx - mn, 1);
            let s = saturation_double(mx, mn, sum, l, d);
            let k = saturation_denominator(v);
            -k * 0x800_0000_0000 <= s * k - (max3(v) - min3(v)) * one() <= k * 0x800_0000_0000
        }),
{
    let (r, g, b) = (channel(v.0), channel(v.1), channel(v.2));
    let mx = max_of(r, g, b);
    let mn = min_of(r, g, b);
    let sum = nearest_signed(mx + mn, 1);
    let l = nearest_signed(sum, 2);
    let d = nearest_signed(mx - mn, 1);
    let m = max3(v) - min3(v);
    lemma_extreme_channels(v);
    lemma_lightness_double_accurate(v);
    lemma_difference_scaled(max3(v), min3(v));
    lemma_channel_scaled(max3(v));
    lemma_channel_scaled(min3(v));
    lemma_channel(max3(v));
    lemma_channel(min3(v));
    if l > one() / 2 {
        lemma_nearest_signed_close(2 * one() - mx);
        let t = nearest_signed(2 * one() - mx, 1);
        lemma_nearest_signed_close(t - mn);
        let den = nearest_signed(t - mn, 1);
        let k = 510 - (max3(v) + min3(v));
        assert(k == saturation_denominator(v));
        assert(-0x100_0000_0000 <= 255 * den - k * one() <= 0x100_0000_0000);
        lemma_quotient_accurate(d, den, m, k);
    } else {
        let k = max3(v) + min3(v);
        assert(k == saturation_denominator(v));
        lemma_quotient_accurate(d, sum, m, k);
    }
}

} // verus!
