use philiprehberger_color::{Color, ColorError, CSS_COLOR_COUNT};

#[test]
fn hex_error_carries_input_without_hash() {
    assert_eq!(Color::from_hex("#xyz"), Err(ColorError::InvalidHex("xyz".to_string())));
    assert_eq!(Color::from_hex("12345"), Err(ColorError::InvalidHex("12345".to_string())));
    assert_eq!(Color::from_hex("##abc"), Err(ColorError::InvalidHex("#abc".to_string())));
    assert_eq!(Color::from_hex("é12"), Err(ColorError::InvalidHex("é12".to_string())));
}

#[test]
fn hex_parsing_accepts_uppercase_digits() {
    assert_eq!(Color::from_hex("#FF6600"), Ok(Color::rgb(255, 102, 0)));
    assert_eq!(Color::from_hex("aBc"), Ok(Color::rgb(0xaa, 0xbb, 0xcc)));
}

#[test]
fn hex_short_form_equals_long_form() {
    assert_eq!(Color::from_hex("#abc"), Color::from_hex("#aabbcc"));
}

#[test]
fn hex_round_trip_on_many_colors() {
    for r in (0..=255u8).step_by(17) {
        for g in (0..=255u8).step_by(51) {
            for b in [0u8, 1, 127, 128, 254, 255] {
                let c = Color::rgb(r, g, b);
                assert_eq!(Color::from_hex(&c.to_hex()), Ok(c));
            }
        }
    }
}

#[test]
fn invert_twice_is_identity() {
    let c = Color::rgb(12, 200, 77);
    assert_eq!(c.invert(), Color::rgb(243, 55, 178));
    assert_eq!(c.invert().invert(), c);
}

#[test]
fn grayscale_values() {
    assert_eq!(Color::rgb(0, 255, 0).grayscale(), Color::rgb(182, 182, 182));
    assert_eq!(Color::rgb(0, 0, 255).grayscale(), Color::rgb(18, 18, 18));
    let c = Color::rgb(10, 200, 30);
    assert_eq!(c.grayscale().grayscale(), c.grayscale());
    assert_eq!(Color::rgb(77, 77, 77).grayscale(), Color::rgb(77, 77, 77));
    // the exact luma is 15.5; in double precision it is just below
    assert_eq!(Color::rgb(0, 14, 76).grayscale(), Color::rgb(15, 15, 15));
}

#[test]
fn complementary_values() {
    assert_eq!(Color::rgb(255, 0, 0).complementary(), Color::rgb(0, 255, 255));
    assert_eq!(Color::rgb(200, 100, 50).complementary(), Color::rgb(50, 150, 200));
    let c = Color::rgb(200, 100, 50);
    assert_eq!(c.complementary().complementary(), c);
    assert_eq!(Color::rgb(90, 90, 90).complementary(), Color::rgb(90, 90, 90));
}

#[test]
fn triadic_values() {
    let [t1, t2] = Color::rgb(255, 0, 0).triadic();
    assert_eq!(t1, Color::rgb(0, 255, 0));
    assert_eq!(t2, Color::rgb(0, 0, 255));
    let [u1, u2] = Color::rgb(200, 100, 50).triadic();
    assert_eq!(u1, Color::rgb(50, 200, 100));
    assert_eq!(u2, Color::rgb(100, 50, 200));
    let [w1, _] = u2.triadic();
    assert_eq!(w1, Color::rgb(200, 100, 50));
}

#[test]
fn hsl_string_values() {
    assert_eq!(Color::rgb(255, 102, 0).to_hsl_string(), "hsl(24, 100%, 50%)");
    assert_eq!(Color::rgb(128, 128, 128).to_hsl_string(), "hsl(0, 0%, 50%)");
    assert_eq!(Color::rgb(0, 0, 255).to_hsl_string(), "hsl(240, 100%, 50%)");
    assert_eq!(Color::rgb(200, 100, 50).to_hsl_string(), "hsl(20, 60%, 49%)");
    assert_eq!(Color::rgb(255, 255, 255).to_hsl_string(), "hsl(0, 0%, 100%)");
    // the exact hue is 122.5 degrees; in double precision it is just below
    assert_eq!(Color::rgb(0, 24, 1).to_hsl_string(), "hsl(122, 100%, 5%)");
    // exact saturation 87.5%, just below in double precision
    assert_eq!(Color::rgb(64, 7, 105).to_hsl_string(), "hsl(275, 87%, 22%)");
}

#[test]
fn rgb_string_and_ansi_of_black() {
    assert_eq!(Color::rgb(0, 0, 0).to_rgb_string(), "rgb(0, 0, 0)");
    assert_eq!(Color::rgb(0, 9, 10).to_ansi_bg(), "\x1b[48;2;0;9;10m");
}

#[test]
fn named_lowercase_is_exact() {
    assert_eq!(Color::named_lowercase("blue"), Some(Color::rgb(0, 0, 255)));
    assert_eq!(Color::named_lowercase("Blue"), None);
    assert_eq!(Color::named("YellowGreen"), Some(Color::rgb(154, 205, 50)));
    assert_eq!(Color::named("aliceblue"), Some(Color::rgb(240, 248, 255)));
    assert_eq!(Color::named(""), None);
}

#[test]
fn named_colors_table() {
    let all = Color::named_colors();
    assert_eq!(all.len(), CSS_COLOR_COUNT);
    assert_eq!(all.len(), 148);
    assert_eq!(all[0], ("aliceblue", 240, 248, 255));
    assert_eq!(all[147], ("yellowgreen", 154, 205, 50));
    for (name, r, g, b) in &all {
        assert_eq!(Color::named(name), Some(Color::rgb(*r, *g, *b)));
    }
}

#[test]
fn named_ascii_case_and_spaces() {
    assert_eq!(Color::named("DARKGREY"), Color::named("darkgrey"));
    assert_eq!(Color::named("Tomato"), Color::named(&"Tomato".to_lowercase()));
    assert!(Color::named(" red").is_none());
    assert!(Color::named("red ").is_none());
}

#[test]
fn default_is_white() {
    assert_eq!(Color::default(), Color::rgb(255, 255, 255));
}

#[test]
fn getters() {
    let c = Color::rgb(1, 2, 3);
    assert_eq!((c.r(), c.g(), c.b()), (1, 2, 3));
}
