"""Run the library's integer models of `grayscale`, `to_hsl_string`,
`complementary` and `triadic` against double-precision evaluation, over every
24-bit color.

Python floats are IEEE doubles, and the float expressions below evaluate in the
same order as the f64 code in app/lib.rs, so they give the same values. The
integer models follow src/binary64.rs, src/hsl_binary64.rs and src/color.rs.

Usage: python3 compare_float.py [first_red last_red_exclusive]
"""
import math
import sys
from fractions import Fraction

EPS = 2.220446049250313e-16
ONE = 2 ** 62


def rust_round(x):
    f = math.floor(x)
    return f + (1 if x - f >= 0.5 else 0)


def to_u8(x):
    v = rust_round(x)
    return 0 if v < 0 else (255 if v > 255 else int(v))


def rgb_to_hsl(r, g, b):
    r, g, b = r / 255.0, g / 255.0, b / 255.0
    mx, mn = max(max(r, g), b), min(min(r, g), b)
    l = (mx + mn) / 2.0
    if abs(mx - mn) < EPS:
        return (0.0, 0.0, l)
    d = mx - mn
    s = d / (2.0 - mx - mn) if l > 0.5 else d / (mx + mn)
    if abs(mx - r) < EPS:
        h = (g - b) / d
        if g < b:
            h += 6.0
    elif abs(mx - g) < EPS:
        h = (b - r) / d + 2.0
    else:
        h = (r - g) / d + 4.0
    return (h * 60.0, s, l)


def hue_to_rgb(p, q, t):
    if t < 0.0:
        t += 1.0
    if t > 1.0:
        t -= 1.0
    if t < 1.0 / 6.0:
        return p + (q - p) * 6.0 * t
    if t < 1.0 / 2.0:
        return q
    if t < 2.0 / 3.0:
        return p + (q - p) * (2.0 / 3.0 - t) * 6.0
    return p


def hsl_to_rgb(h, s, l):
    if abs(s) < EPS:
        v = to_u8(l * 255.0)
        return (v, v, v)
    q = l * (1.0 + s) if l < 0.5 else l + s - l * s
    p = 2.0 * l - q
    h = h / 360.0
    return tuple(to_u8(hue_to_rgb(p, q, t) * 255.0) for t in (h + 1.0 / 3.0, h, h - 1.0 / 3.0))


def rotate_hue(c, deg):
    h, s, l = rgb_to_hsl(*c)
    h = math.fmod(math.fmod(h + deg, 360.0) + 360.0, 360.0)
    return hsl_to_rgb(h, s, l)


def spacing(n, d):
    u = 1
    while n // (d * u) >= 2 ** 53:
        u *= 2
    return u


def nearest(n, d=1):
    u = spacing(n, d)
    q, r = divmod(n, d * u)
    if 2 * r > d * u or (2 * r == d * u and q % 2 == 1):
        return (q + 1) * u
    return q * u


def nearest_signed(x, d=1):
    return nearest(x, d) if x >= 0 else -nearest(-x, d)


def quotient(a, b):
    return nearest_signed(a * ONE, b) if b > 0 else 0


def round_away(x):
    return (x + ONE // 2) // ONE if x >= 0 else -((-x + ONE // 2) // ONE)


def hsl_model(x, y, z):
    r, g, b = (nearest(c * ONE, 255) for c in (x, y, z))
    mx, mn = max(r, g, b), min(r, g, b)
    total = nearest_signed(mx + mn)
    l = nearest_signed(total, 2)
    d = nearest_signed(mx - mn)
    if abs(d) < 2 ** 10:
        return (0, 0, round_away(nearest_signed(l * 100)))
    den = nearest_signed(nearest_signed(2 * ONE - mx) - mn) if l > ONE // 2 else total
    s = quotient(d, den)
    if abs(nearest_signed(mx - r)) < 2 ** 10:
        h = quotient(nearest_signed(g - b), d)
        if g < b:
            h = nearest_signed(h + 6 * ONE)
    elif abs(nearest_signed(mx - g)) < 2 ** 10:
        h = nearest_signed(quotient(nearest_signed(b - r), d) + 2 * ONE)
    else:
        h = nearest_signed(quotient(nearest_signed(r - g), d) + 4 * ONE)
    return tuple(round_away(nearest_signed(v)) for v in (h * 60, s * 100, l * 100))


LUMA = [Fraction(c) * 2 ** 56 for c in (0.2126, 0.7152, 0.0722)]
LUMA = [int(c) for c in LUMA]


def gray_model(r, g, b):
    red, green, blue = nearest(LUMA[0] * r), nearest(LUMA[1] * g), nearest(LUMA[2] * b)
    luma = nearest(nearest(red + green) + blue)
    return min(255, (luma + 2 ** 55) // 2 ** 56)


def main():
    lo, hi = (int(sys.argv[1]), int(sys.argv[2])) if len(sys.argv) > 2 else (0, 256)
    diffs = {"complementary": 0, "triadic": 0, "to_hsl_string": 0, "grayscale": 0}
    for r in range(lo, hi):
        for g in range(256):
            for b in range(256):
                mx, mn = max(r, g, b), min(r, g, b)
                if rotate_hue((r, g, b), 180.0) != (mx + mn - r, mx + mn - g, mx + mn - b):
                    diffs["complementary"] += 1
                if rotate_hue((r, g, b), 120.0) != (b, r, g) or rotate_hue((r, g, b), 240.0) != (g, b, r):
                    diffs["triadic"] += 1
                h, s, l = rgb_to_hsl(r, g, b)
                floats = (int(rust_round(h)), int(rust_round(s * 100.0)), int(rust_round(l * 100.0)))
                if floats != hsl_model(r, g, b):
                    diffs["to_hsl_string"] += 1
                if rust_round(0.2126 * r + 0.7152 * g + 0.0722 * b) != gray_model(r, g, b):
                    diffs["grayscale"] += 1
    for name, n in diffs.items():
        print(f"{name}: {n} colors differ")


if __name__ == "__main__":
    main()
