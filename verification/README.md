# philiprehberger_color

A color library whose operations are verified with Verus.

- `src/` — the verified library. `Color` is viewed as an `Rgb` triple; each
  operation's contract states its result over specification functions:
  - `hex` — hex digits, `parse_hex` (`#rrggbb`, `#rgb`, optional `#`) and `hex_string`;
  - `text` — decimal and hex digit rendering;
  - `binary64` — an exact integer model of double-precision rounding;
  - `hsl_binary64` — HSL hue, saturation and lightness as double-precision
    arithmetic computes them, for `to_hsl_string`;
  - `hsl` — exact HSL hue, saturation and lightness, for the laws on harmonies;
  - `css` — the 148 CSS named colors and their lookup;
  - `color` — `Color` and its operations (parsing, formatting, ANSI escapes,
    inversion, grayscale, complementary and triadic colors);
  - `error` — `ColorError`;
  - `laws` — proved properties: hex round trip, optional `#`, short hex form,
    involutions, grayscale idempotence and bounds, hue turns of the harmonies.
- `app/` — the operations on `f64` (HSL/HSV conversion, lighten/darken,
  saturate/desaturate, free hue rotation, mix, gradient, WCAG luminance and
  contrast), as the extension trait `ColorFloatExt`.
- `tests/` — runtime tests.
- `extras/compare_float.py` — runs the integer models of `grayscale`,
  `to_hsl_string`, `complementary` and `triadic` against `f64` evaluation on
  all 2^24 colors.
