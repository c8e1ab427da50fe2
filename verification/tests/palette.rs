use rift::palette::{parse_hex, to_hex};
use rift::brand::{
    build_css_vars, corner_radii, render_palette_vars, CornerStyle, DerivedPalettes, FontPreset,
    Palette,
};

#[test]
fn parses_short_and_long_hex() {
    assert_eq!(parse_hex("#fff"), Some((255, 255, 255)));
    assert_eq!(parse_hex("#000000"), Some((0, 0, 0)));
    assert_eq!(parse_hex("  #0d9488 "), Some((13, 148, 136)));
    assert_eq!(parse_hex("#abc"), Some((170, 187, 204)));
}

#[test]
fn rejects_malformed_hex() {
    assert_eq!(parse_hex("0d9488"), None); // missing '#'
    assert_eq!(parse_hex("#12"), None); // wrong length
    assert_eq!(parse_hex("#gggggg"), None); // non-hex digits
    assert_eq!(parse_hex("rebeccapurple"), None); // named color
}

#[test]
fn parse_hex_accepts_uppercase_digits() {
    assert_eq!(parse_hex("#0D9488"), Some((13, 148, 136)));
    assert_eq!(parse_hex("#ABC"), Some((170, 187, 204)));
}

#[test]
fn to_hex_prints_lowercase_two_digits_per_channel() {
    assert_eq!(to_hex((13, 148, 136)), "#0d9488");
    assert_eq!(to_hex((0, 0, 0)), "#000000");
    assert_eq!(to_hex((255, 10, 171)), "#ff0aab");
}

#[test]
fn printed_colour_parses_back() {
    for rgb in [(0u8, 0u8, 0u8), (1, 2, 3), (255, 255, 255), (16, 128, 250)] {
        assert_eq!(parse_hex(&to_hex(rgb)), Some(rgb));
    }
}

fn palette(bg: &str) -> Palette {
    Palette {
        bg: bg.to_string(),
        surface: "#111113".to_string(),
        border: "#26262b".to_string(),
        text: "#fafafa".to_string(),
        text_muted: "#a1a1aa".to_string(),
        accent: "#0d9488".to_string(),
        accent_bright: "#14b8a6".to_string(),
        accent_deep: "#0f766e".to_string(),
        accent_text: "#fafafa".to_string(),
        accent_glow: "rgba(13,148,136,0.35)".to_string(),
    }
}

#[test]
fn palette_vars_list_every_colour() {
    assert_eq!(
        render_palette_vars(&palette("#0a0a0a")),
        "--bg:#0a0a0a; --surface:#111113; --border:#26262b; --text:#fafafa; --text-muted:#a1a1aa; --accent:#0d9488; --accent-text:#fafafa; --accent-glow:rgba(13,148,136,0.35);"
    );
}

#[test]
fn css_vars_add_light_override_only_when_present() {
    let dark_only = DerivedPalettes { root: palette("#0a0a0a"), prefers_light: None };
    let css = build_css_vars(&dark_only, FontPreset::Serif, CornerStyle::Pill);
    assert!(css.starts_with(":root { --bg:#0a0a0a;"));
    assert!(css.ends_with(" --font:Georgia,'Times New Roman',serif; --radius:16px; --radius-btn:999px; }"));
    assert!(!css.contains("prefers-color-scheme"));

    let auto = DerivedPalettes { root: palette("#0a0a0a"), prefers_light: Some(palette("#ffffff")) };
    let css = build_css_vars(&auto, FontPreset::System, CornerStyle::Sharp);
    assert!(css.contains(" @media (prefers-color-scheme: light) { :root { --bg:#ffffff;"));
    assert!(css.ends_with(" } }"));
    assert_eq!(corner_radii(CornerStyle::Rounded), ("14px", "10px"));
}
