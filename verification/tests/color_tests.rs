use philiprehberger_color::{Color, ColorError};
use std::collections::HashSet;

#[test]
fn test_hex_parsing_full() {
    let c = Color::from_hex("#ff6600").unwrap();
    assert_eq!(c, Color::rgb(255, 102, 0));
}

#[test]
fn test_hex_parsing_short() {
    let c = Color::from_hex("#f60").unwrap();
    assert_eq!(c, Color::rgb(255, 102, 0));
}

#[test]
fn test_hex_parsing_no_hash() {
    let c = Color::from_hex("ff6600").unwrap();
    assert_eq!(c, Color::rgb(255, 102, 0));
}

#[test]
fn test_hex_parsing_short_no_hash() {
    let c = Color::from_hex("f60").unwrap();
    assert_eq!(c, Color::rgb(255, 102, 0));
}

#[test]
fn test_hex_parsing_invalid() {
    assert!(Color::from_hex("#xyz").is_err());
    assert!(Color::from_hex("#12345").is_err());
    assert!(Color::from_hex("").is_err());
    assert!(Color::from_hex("#gg0000").is_err());
}

#[test]
fn test_invert() {
    assert_eq!(Color::rgb(255, 255, 255).invert(), Color::rgb(0, 0, 0));
    assert_eq!(Color::rgb(0, 0, 0).invert(), Color::rgb(255, 255, 255));
    assert_eq!(Color::rgb(255, 0, 128).invert(), Color::rgb(0, 255, 127));
}

#[test]
fn test_grayscale() {
    let white = Color::rgb(255, 255, 255).grayscale();
    assert_eq!(white, Color::rgb(255, 255, 255));

    let black = Color::rgb(0, 0, 0).grayscale();
    assert_eq!(black, Color::rgb(0, 0, 0));

    let red = Color::rgb(255, 0, 0).grayscale();
    // 0.2126 * 255 = 54.213 => 54
    assert_eq!(red.r(), 54);
    assert_eq!(red.g(), 54);
    assert_eq!(red.b(), 54);
}

#[test]
fn test_named_colors() {
    let tomato = Color::named("tomato").unwrap();
    assert_eq!(tomato, Color::rgb(255, 99, 71));

    let coral = Color::named("coral").unwrap();
    assert_eq!(coral, Color::rgb(255, 127, 80));

    assert!(Color::named("nonexistent").is_none());
}

#[test]
fn test_named_colors_case_insensitive() {
    let blue = Color::named("Blue").unwrap();
    assert_eq!(blue, Color::rgb(0, 0, 255));
}

#[test]
fn test_ansi_fg() {
    let c = Color::rgb(255, 0, 128);
    assert_eq!(c.to_ansi_fg(), "\x1b[38;2;255;0;128m");
}

#[test]
fn test_ansi_bg() {
    let c = Color::rgb(255, 0, 128);
    assert_eq!(c.to_ansi_bg(), "\x1b[48;2;255;0;128m");
}

#[test]
fn test_ansi_paint() {
    let c = Color::rgb(255, 0, 0);
    let painted = c.ansi_paint("hello");
    assert_eq!(painted, "\x1b[38;2;255;0;0mhello\x1b[0m");
}

#[test]
fn test_display() {
    let c = Color::rgb(255, 102, 0);
    assert_eq!(c.to_string(), "#ff6600");
}

#[test]
fn test_from_str_roundtrip() {
    let original = Color::rgb(255, 102, 0);
    let hex = original.to_hex();
    let parsed: Color = hex.parse().unwrap();
    assert_eq!(original, parsed);
}

#[test]
fn test_to_hex() {
    assert_eq!(Color::rgb(0, 0, 0).to_hex(), "#000000");
    assert_eq!(Color::rgb(255, 255, 255).to_hex(), "#ffffff");
    assert_eq!(Color::rgb(255, 102, 0).to_hex(), "#ff6600");
}

#[test]
fn test_to_rgb_string() {
    assert_eq!(Color::rgb(255, 102, 0).to_rgb_string(), "rgb(255, 102, 0)");
}

#[test]
fn test_to_hsl_string() {
    let c = Color::rgb(255, 0, 0);
    assert_eq!(c.to_hsl_string(), "hsl(0, 100%, 50%)");
}

#[test]
fn test_hash() {
    let mut set = HashSet::new();
    set.insert(Color::rgb(255, 0, 0));
    set.insert(Color::rgb(255, 0, 0));
    assert_eq!(set.len(), 1);
    set.insert(Color::rgb(0, 255, 0));
    assert_eq!(set.len(), 2);
}

#[test]
fn test_color_error_display() {
    let err = ColorError::InvalidHex("xyz".to_string());
    assert_eq!(err.to_string(), "invalid hex color: xyz");
    let err = ColorError::InvalidFormat("bad".to_string());
    assert_eq!(err.to_string(), "invalid color format: bad");
}

#[test]
fn test_named_color_count() {
    assert!(Color::named_colors().len() >= 140);
}

#[test]
fn test_gray_grey_alias() {
    assert_eq!(Color::named("gray"), Color::named("grey"));
    assert_eq!(Color::named("darkgray"), Color::named("darkgrey"));
}
