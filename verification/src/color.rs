use vstd::prelude::*;

use crate::binary64::{lemma_nearest_close, nearest, nearest_exec};
use crate::css::{
    all_ascii, ascii_lowercase, css_entry, css_entry_exec, css_lookup, css_lookup_exec, spec_to_lowercase, to_lowercase,
    CSS_COLOR_COUNT,
};
use crate::error::ColorError;
use crate::hex::{
    all_hex_digits, hex_pair_exec, hex_string, is_hex_digit, is_hex_digit_exec, parse_hex, strip_hash,
};
use crate::hsl::{max3, max_min, min3};
use crate::hsl_binary64::{hsl_doubles_exec, hsl_string, push_int, round_away_exec};
use crate::text::{dec_digits, push_decimal, push_hex_byte};

verus! {

/// The mathematical value of a color: its red, green and blue components.
pub type Rgb = (u8, u8, u8);

/// A color represented by its RGB components.
#[derive(Debug, Clone, Copy, PartialEq, Eq, Hash, Structural)]
pub struct Color {
    r: u8,
    g: u8,
    b: u8,
}

impl View for Color {
    type V = Rgb;

    closed spec fn view(&self) -> Rgb {
        (self.r, self.g, self.b)
    }
}

/// The `rgb(r, g, b)` form of a color, components in decimal.
pub open spec fn rgb_string(v: Rgb) -> Seq<char> {
    "rgb("@ + dec_digits(v.0 as nat) + ", "@ + dec_digits(v.1 as nat) + ", "@ + dec_digits(v.2 as nat)
        + ")"@
}

/// The ANSI truecolor escape sequence that selects a color; `layer` is `38` for
/// the foreground and `48` for the background.
pub open spec fn ansi_escape(layer: Seq<char>, v: Rgb) -> Seq<char> {
    "\x1b["@ + layer + ";2;"@ + dec_digits(v.0 as nat) + ";"@ + dec_digits(v.1 as nat) + ";"@
        + dec_digits(v.2 as nat) + "m"@
}

/// The ANSI truecolor foreground escape sequence for a color.
pub open spec fn ansi_fg(v: Rgb) -> Seq<char> {
    ansi_escape("38"@, v)
}

/// The ANSI truecolor background escape sequence for a color.
pub open spec fn ansi_bg(v: Rgb) -> Seq<char> {
    ansi_escape("48"@, v)
}

/// The BT.709 red luma coefficient `0.2126` as the nearest double, in units
/// of `2^-56`.
pub const LUMA_RED: u128 = 15319444492463480;

/// The BT.709 green luma coefficient `0.7152` as the nearest double, in units
/// of `2^-56`.
pub const LUMA_GREEN: u128 = 51535591255926056;

/// The BT.709 blue luma coefficient `0.0722` as the nearest double, in units
/// of `2^-56`.
pub const LUMA_BLUE: u128 = 5202558289538397;

/// `0.2126 * R + 0.7152 * G + 0.0722 * B` evaluated in double precision,
/// in units of `2^-56`: each product and each sum, left to right, rounded to
/// the nearest double.
pub open spec fn luma_units(v: Rgb) -> nat {
    let red = nearest((LUMA_RED * v.0) as nat, 1);
    let green = nearest((LUMA_GREEN * v.1) as nat, 1);
    let blue = nearest((LUMA_BLUE * v.2) as nat, 1);
    nearest(nearest(red + green, 1) + blue, 1)
}

/// The gray level of a color by the ITU-R BT.709 luma coefficients,
/// `0.2126 R + 0.7152 G + 0.0722 B` in double precision, rounded to the
/// nearest integer with halves rounded up (away from zero) and held to 255.
/// Where the exact value is a whole number and a half, the double-precision
/// value can lie just below it, and then it rounds down.
pub open spec fn gray_level(v: Rgb) -> u8 {
    let level = (luma_units(v) + 0x80_0000_0000_0000) / 0x100_0000_0000_0000;
    if level > 255 {
        255
    } else {
        level as u8
    }
}

/// The gray of the same luma as a color.
pub open spec fn spec_grayscale(v: Rgb) -> Rgb {
    (gray_level(v), gray_level(v), gray_level(v))
}

/// The color whose HSL hue is turned by 180 degrees, with the same saturation
/// and lightness: each component `c` becomes `max + min - c`.
pub open spec fn spec_complement(v: Rgb) -> Rgb {
    let s = max3(v) + min3(v);
    ((s - v.0) as u8, (s - v.1) as u8, (s - v.2) as u8)
}

/// The color whose HSL hue is turned by 120 degrees, with the same saturation
/// and lightness: the components move one place on, red to green to blue.
pub open spec fn spec_rotate_third(v: Rgb) -> Rgb {
    (v.2, v.0, v.1)
}

/// Inversion of each component: `255 - c`.
pub open spec fn spec_invert(v: Rgb) -> Rgb {
    ((255 - v.0) as u8, (255 - v.1) as u8, (255 - v.2) as u8)
}

impl Color {
    /// Create a color from RGB component values.
    pub fn rgb(r: u8, g: u8, b: u8) -> (c: Color)
        ensures
            c@ == (r, g, b),
    {
        Color { r, g, b }
    }

    /// Returns the red component.
    pub fn r(&self) -> (v: u8)
        ensures
            v == self@.0,
    {
        self.r
    }

    /// Returns the green component.
    pub fn g(&self) -> (v: u8)
        ensures
            v == self@.1,
    {
        self.g
    }

    /// Returns the blue component.
    pub fn b(&self) -> (v: u8)
        ensures
            v == self@.2,
    {
        self.b
    }

    /// Parse a color from a hex string.
    ///
    /// Accepts formats: `"#ff6600"`, `"#f60"`, `"ff6600"`, `"f60"`, in either
    /// case. Anything else is refused with `InvalidHex` carrying the input
    /// without its leading `#`.
    pub fn from_hex(hex: &str) -> (res: Result<Color, ColorError>)
        ensures
            match res {
                Ok(c) => parse_hex(hex@) == Some(c@),
                Err(ColorError::InvalidHex(m)) => parse_hex(hex@) is None && m@ == strip_hash(hex@),
                Err(ColorError::InvalidFormat(_)) => false,
            },
    {
        let n = hex.unicode_len();
        let start: usize = if n > 0 && hex.get_char(0) == '#' {
            1
        } else {
            0
        };
        let digits = hex.substring_char(start, n);
        assert(digits@ =~= strip_hash(hex@));
        let len = n - start;
        if len != 3 && len != 6 {
            return Err(ColorError::InvalidHex(digits.to_owned()));
        }
        let mut i: usize = 0;
        while i < len
            invariant
                i <= len,
                len == digits@.len(),
                digits@ == strip_hash(hex@),
                forall|j: int| 0 <= j < i ==> #[trigger] is_hex_digit(digits@[j]),
            decreases len - i,
        {
            if !is_hex_digit_exec(digits.get_char(i)) {
                assert(!all_hex_digits(digits@)) by {
                    assert(!is_hex_digit(digits@[i as int]));
                }
                return Err(ColorError::InvalidHex(digits.to_owned()));
            }
            i += 1;
        }
        assert(all_hex_digits(digits@));
        if len == 6 {
            let r = hex_pair_exec(digits.get_char(0), digits.get_char(1));
            let g = hex_pair_exec(digits.get_char(2), digits.get_char(3));
            let b = hex_pair_exec(digits.get_char(4), digits.get_char(5));
            Ok(Color { r, g, b })
        } else {
            let c0 = digits.get_char(0);
            let c1 = digits.get_char(1);
            let c2 = digits.get_char(2);
            Ok(Color { r: hex_pair_exec(c0, c0), g: hex_pair_exec(c1, c1), b: hex_pair_exec(c2, c2) })
        }
    }

    /// Look up a CSS color by its exact lowercase name, such as `"tomato"`.
    ///
    /// Returns `None` if no CSS color has that name.
    pub fn named_lowercase(name: &str) -> (res: Option<Color>)
        ensures
            match res {
                Some(c) => css_lookup(name@) == Some(c@),
                None => css_lookup(name@) is None,
            },
    {
        match css_lookup_exec(name) {
            Some((r, g, b)) => Some(Color { r, g, b }),
            None => None,
        }
    }

    /// Look up a CSS named color by name (case-insensitive): the name is
    /// lowercased with `str::to_lowercase` and looked up exactly.
    ///
    /// Returns `None` if the name is not recognized.
    pub fn named(name: &str) -> (res: Option<Color>)
        ensures
            match res {
                Some(c) => css_lookup(spec_to_lowercase(name@)) == Some(c@),
                None => css_lookup(spec_to_lowercase(name@)) is None,
            },
            all_ascii(name@) ==> match res {
                Some(c) => css_lookup(ascii_lowercase(name@)) == Some(c@),
                None => css_lookup(ascii_lowercase(name@)) is None,
            },
    {
        let lower = to_lowercase(name);
        Color::named_lowercase(lower.as_str())
    }

    /// All CSS named colors with their components, in alphabetical order.
    pub fn named_colors() -> (v: Vec<(&'static str, u8, u8, u8)>)
        ensures
            v@.len() == CSS_COLOR_COUNT,
            forall|i: int|
                0 <= i < CSS_COLOR_COUNT ==> (#[trigger] v@[i].0@, (v@[i].1, v@[i].2, v@[i].3))
                    == css_entry(i as usize),
    {
        let mut v: Vec<(&'static str, u8, u8, u8)> = Vec::new();
        let mut i: usize = 0;
        while i < CSS_COLOR_COUNT
            invariant
                i <= CSS_COLOR_COUNT,
                v@.len() == i,
                forall|j: int|
                    0 <= j < i ==> (#[trigger] v@[j].0@, (v@[j].1, v@[j].2, v@[j].3)) == css_entry(
                        j as usize,
                    ),
            decreases CSS_COLOR_COUNT - i,
        {
            v.push(css_entry_exec(i));
            i += 1;
        }
        v
    }

    /// Convert to a hex string like `"#ff6600"`.
    pub fn to_hex(&self) -> (s: String)
        ensures
            s@ == hex_string(self@),
    {
        let mut s = "#".to_owned();
        proof {
            reveal_strlit("#");
        }
        push_hex_byte(&mut s, self.r);
        push_hex_byte(&mut s, self.g);
        push_hex_byte(&mut s, self.b);
        assert(s@ =~= hex_string(self@));
        s
    }

    /// The display form of a color: its hex string, like `"#ff6600"`.
    pub fn to_string(&self) -> (s: String)
        ensures
            s@ == hex_string(self@),
    {
        self.to_hex()
    }

    /// Convert to an RGB string like `"rgb(255, 102, 0)"`.
    pub fn to_rgb_string(&self) -> (s: String)
        ensures
            s@ == rgb_string(self@),
    {
        let mut s = "rgb(".to_owned();
        push_decimal(&mut s, self.r as u32);
        s.append(", ");
        push_decimal(&mut s, self.g as u32);
        s.append(", ");
        push_decimal(&mut s, self.b as u32);
        s.append(")");
        assert(s@ =~= rgb_string(self@));
        s
    }

    /// Build the truecolor escape for the given layer code.
    fn ansi_escape_exec(&self, layer: &str) -> (s: String)
        ensures
            s@ == ansi_escape(layer@, self@),
    {
        let mut s = "\x1b[".to_owned();
        s.append(layer);
        s.append(";2;");
        push_decimal(&mut s, self.r as u32);
        s.append(";");
        push_decimal(&mut s, self.g as u32);
        s.append(";");
        push_decimal(&mut s, self.b as u32);
        s.append("m");
        assert(s@ =~= ansi_escape(layer@, self@));
        s
    }

    /// Generate an ANSI truecolor foreground escape sequence.
    pub fn to_ansi_fg(&self) -> (s: String)
        ensures
            s@ == ansi_fg(self@),
    {
        self.ansi_escape_exec("38")
    }

    /// Generate an ANSI truecolor background escape sequence.
    pub fn to_ansi_bg(&self) -> (s: String)
        ensures
            s@ == ansi_bg(self@),
    {
        self.ansi_escape_exec("48")
    }

    /// Wrap text with the foreground color and a reset sequence.
    pub fn ansi_paint(&self, text: &str) -> (s: String)
        ensures
            s@ == ansi_fg(self@) + text@ + "\x1b[0m"@,
    {
        let mut s = self.to_ansi_fg();
        s.append(text);
        s.append("\x1b[0m");
        s
    }

    /// Convert to an HSL string like `"hsl(24, 100%, 50%)"`: hue in whole
    /// degrees, saturation and lightness in whole percent, each computed in
    /// double precision and rounded to the nearest integer. Exact halves round
    /// up, but where double-precision rounding puts a value just below a half
    /// it rounds down.
    pub fn to_hsl_string(&self) -> (s: String)
        ensures
            s@ == hsl_string(self@),
    {
        let (h, sat, l) = hsl_doubles_exec(self.r, self.g, self.b);
        let h = round_away_exec(h);
        let sat = round_away_exec(sat);
        let l = round_away_exec(l);
        let mut s = "hsl(".to_owned();
        push_int(&mut s, h);
        s.append(", ");
        push_int(&mut s, sat);
        s.append("%, ");
        push_int(&mut s, l);
        s.append("%)");
        assert(s@ =~= hsl_string(self@));
        s
    }

    /// Convert to grayscale using the luminance formula.
    ///
    /// Uses ITU-R BT.709 coefficients: 0.2126*R + 0.7152*G + 0.0722*B,
    /// evaluated in double precision and rounded to the nearest level. Exact
    /// halves round up, but where double-precision rounding puts the sum just
    /// below a half it rounds down.
    pub fn grayscale(&self) -> (c: Color)
        ensures
            c@ == spec_grayscale(self@),
    {
        let red = nearest_exec(LUMA_RED * self.r as u128, 1);
        let green = nearest_exec(LUMA_GREEN * self.g as u128, 1);
        let blue = nearest_exec(LUMA_BLUE * self.b as u128, 1);
        proof {
            lemma_nearest_close((LUMA_RED * self.r) as nat, 1);
            lemma_nearest_close((LUMA_GREEN * self.g) as nat, 1);
            lemma_nearest_close((LUMA_BLUE * self.b) as nat, 1);
            lemma_nearest_close((red + green) as nat, 1);
        }
        let sum = nearest_exec(red + green, 1);
        proof {
            lemma_nearest_close((sum + blue) as nat, 1);
        }
        let luma = nearest_exec(sum + blue, 1);
        let level = (luma + 0x80_0000_0000_0000) / 0x100_0000_0000_0000;
        let gray: u8 = if level > 255 {
            255
        } else {
            level as u8
        };
        Color { r: gray, g: gray, b: gray }
    }

    /// Return the complementary color (180° hue rotation).
    pub fn complementary(&self) -> (c: Color)
        ensures
            c@ == spec_complement(self@),
    {
        let (mx, mn) = max_min(self.r, self.g, self.b);
        Color { r: mx - self.r + mn, g: mx - self.g + mn, b: mx - self.b + mn }
    }

    /// Return the two triadic harmony colors (+120° and +240° hue rotation).
    pub fn triadic(&self) -> (t: [Color; 2])
        ensures
            t[0]@ == spec_rotate_third(self@),
            t[1]@ == spec_rotate_third(spec_rotate_third(self@)),
    {
        [Color { r: self.b, g: self.r, b: self.g }, Color { r: self.g, g: self.b, b: self.r }]
    }

    /// Invert the color (255 - each component).
    pub fn invert(&self) -> (c: Color)
        ensures
            c@ == spec_invert(self@),
    {
        Color { r: 255 - self.r, g: 255 - self.g, b: 255 - self.b }
    }
}

impl Default for Color {
    /// The default color is white (255, 255, 255).
    fn default() -> (c: Color)
        ensures
            c@ == (255u8, 255u8, 255u8),
    {
        Color { r: 255, g: 255, b: 255 }
    }
}

impl std::str::FromStr for Color {
    type Err = ColorError;

    /// Parse a color from a hex string, as `Color::from_hex` does.
    fn from_str(s: &str) -> (res: Result<Color, ColorError>)
        ensures
            match res {
                Ok(c) => parse_hex(s@) == Some(c@),
                Err(ColorError::InvalidHex(m)) => parse_hex(s@) is None && m@ == strip_hash(s@),
                Err(ColorError::InvalidFormat(_)) => false,
            },
    {
        Color::from_hex(s)
    }
}

} // verus!
