//! Exact HSL: the hue, saturation and lightness of a color computed without
//! rounding error, each rounded once to whole degrees or percent. The laws on
//! complementary and triadic colors are stated over these values; the
//! `hsl(..)` string follows double-precision arithmetic instead (see
//! `hsl_binary64`).

use vstd::prelude::*;

use crate::color::Rgb;

verus! {

/// The largest component of a color.
pub open spec fn max3(v: Rgb) -> u8 {
    if v.0 >= v.1 && v.0 >= v.2 {
        v.0
    } else if v.1 >= v.2 {
        v.1
    } else {
        v.2
    }
}

/// The smallest component of a color.
pub open spec fn min3(v: Rgb) -> u8 {
    if v.0 <= v.1 && v.0 <= v.2 {
        v.0
    } else if v.1 <= v.2 {
        v.1
    } else {
        v.2
    }
}

/// `n / d` rounded to the nearest integer, halves rounded up.
pub open spec fn round_div(n: nat, d: nat) -> nat
    recommends
        d > 0,
{
    (2 * n + d) / (2 * d)
}

/// The HSL hue of a chromatic color in degrees, multiplied by the chroma
/// `max3(v) - min3(v)` so that it is an integer.
pub open spec fn hue_scaled(v: Rgb) -> nat {
    let d = max3(v) - min3(v);
    if max3(v) == v.0 {
        if v.1 < v.2 {
            (60 * (v.1 - v.2) + 360 * d) as nat
        } else {
            (60 * (v.1 - v.2)) as nat
        }
    } else if max3(v) == v.1 {
        (60 * (v.2 - v.0) + 120 * d) as nat
    } else {
        (60 * (v.0 - v.1) + 240 * d) as nat
    }
}

/// The exact HSL hue of a color rounded to whole degrees (0 for a gray).
pub open spec fn hsl_hue(v: Rgb) -> nat {
    if max3(v) == min3(v) {
        0
    } else {
        round_div(hue_scaled(v), (max3(v) - min3(v)) as nat)
    }
}

/// The exact HSL saturation of a color rounded to whole percent (0 for a
/// gray).
pub open spec fn hsl_saturation(v: Rgb) -> nat {
    let sum = max3(v) + min3(v);
    if max3(v) == min3(v) {
        0
    } else if sum > 255 {
        round_div((100 * (max3(v) - min3(v))) as nat, (510 - sum) as nat)
    } else {
        round_div((100 * (max3(v) - min3(v))) as nat, sum as nat)
    }
}

/// The exact HSL lightness of a color rounded to whole percent.
pub open spec fn hsl_lightness(v: Rgb) -> nat {
    round_div((100 * (max3(v) + min3(v))) as nat, 510)
}

/// A rounded quotient stays within a bound that the exact quotient meets.
pub proof fn lemma_round_div_bound(n: nat, d: nat, k: nat)
    requires
        d > 0,
        n <= k * d,
    ensures
        round_div(n, d) <= k,
{
    let q = (2 * n + d) / (2 * d);
    vstd::arithmetic::div_mod::lemma_fundamental_div_mod((2 * n + d) as int, (2 * d) as int);
    assert(q <= k) by (nonlinear_arith)
        requires
            d > 0,
            n <= k * d,
            (2 * d) * q + (2 * n + d) % (2 * d) == 2 * n + d,
            (2 * n + d) % (2 * d) >= 0,
    ;
}

/// The whole-degree hue lies in 0..=360, and the saturation and lightness
/// percentages in 0..=100.
pub proof fn lemma_hsl_ranges(v: Rgb)
    ensures
        hsl_hue(v) <= 360,
        hsl_saturation(v) <= 100,
        hsl_lightness(v) <= 100,
{
    let mx = max3(v);
    let mn = min3(v);
    let sum = mx + mn;
    lemma_round_div_bound((100 * sum) as nat, 510, 100);
    if mx != mn {
        let d = (mx - mn) as nat;
        assert(hue_scaled(v) <= 360 * d);
        lemma_round_div_bound(hue_scaled(v), d, 360);
        let den: nat = if sum > 255 { (510 - sum) as nat } else { sum as nat };
        assert(100 * d <= 100 * den) by (nonlinear_arith)
            requires
                d <= den,
        ;
        lemma_round_div_bound((100 * d) as nat, den, 100);
    }
}

/// The largest and smallest components of a color.
pub(crate) fn max_min(r: u8, g: u8, b: u8) -> (res: (u8, u8))
    ensures
        res.0 == max3((r, g, b)),
        res.1 == min3((r, g, b)),
{
    let mx = if r >= g && r >= b {
        r
    } else if g >= b {
        g
    } else {
        b
    };
    let mn = if r <= g && r <= b {
        r
    } else if g <= b {
        g
    } else {
        b
    };
    (mx, mn)
}

} // verus!
