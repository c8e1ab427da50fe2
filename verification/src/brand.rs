//! Brand styling of the landing page: the colour palette as CSS custom
//! properties, the font stack and the corner radii.
//!
//! The palette's colours are derived from the brand accent in floating
//! point by the application; how they are written into the page is here.

use vstd::prelude::*;
use crate::text::{to_owned, push_str};
use crate::palette::{parse_hex, hex_color_of};

verus! {

/// The accent used when a brand sets none (or an unreadable one).
pub const DEFAULT_ACCENT: &'static str = "#0d9488";

/// Which colour scheme a brand asks for.
#[derive(Clone, Copy, Debug, PartialEq, Eq, Structural)]
pub enum ColorScheme {
    Dark,
    Light,
    /// Dark, with a light override when the visitor prefers it.
    Auto,
}

/// Brand font choices.
#[derive(Clone, Copy, Debug, PartialEq, Eq, Structural)]
pub enum FontPreset {
    System,
    Serif,
    Rounded,
    Mono,
}

/// Brand corner styles.
#[derive(Clone, Copy, Debug, PartialEq, Eq, Structural)]
pub enum CornerStyle {
    Sharp,
    Rounded,
    Pill,
}

/// A resolved set of CSS colour values for one canvas.
#[derive(Clone, Debug)]
pub struct Palette {
    pub bg: String,
    pub surface: String,
    pub border: String,
    pub text: String,
    pub text_muted: String,
    pub accent: String,
    pub accent_bright: String,
    pub accent_deep: String,
    pub accent_text: String,
    pub accent_glow: String,
}

/// The palette at `:root`, and the light override when the scheme is auto.
#[derive(Clone, Debug)]
pub struct DerivedPalettes {
    pub root: Palette,
    pub prefers_light: Option<Palette>,
}


/// The RGB accent a brand colour resolves to: the colour itself where it
/// reads as `#RGB` or `#RRGGBB`, else the default accent, else teal.
pub open spec fn accent_rgb_of(theme_color: Seq<char>) -> (u8, u8, u8) {
    match hex_color_of(theme_color) {
        Some(rgb) => rgb,
        None => match hex_color_of(DEFAULT_ACCENT@) {
            Some(rgb) => rgb,
            None => (13, 148, 136),
        },
    }
}

/// Resolve a brand colour to the RGB accent the palette is derived from.
pub fn resolve_accent(theme_color: &str) -> (r: (u8, u8, u8))
    ensures
        r == accent_rgb_of(theme_color@),
{
    match parse_hex(theme_color) {
        Some(rgb) => rgb,
        None => match parse_hex(DEFAULT_ACCENT) {
            Some(rgb) => rgb,
            None => (13, 148, 136),
        },
    }
}

/// A colour that does not read as hex resolves to the same accent as the
/// default accent itself: a garbage value never breaks the palette.
pub proof fn lemma_garbage_color_uses_default_accent(theme_color: Seq<char>)
    requires
        hex_color_of(theme_color) is None,
    ensures
        accent_rgb_of(theme_color) == accent_rgb_of(DEFAULT_ACCENT@),
{
}

/// The palettes a scheme emits: dark alone, light alone, or dark with the
/// light one as the `prefers-color-scheme: light` override.
pub fn palettes_for_scheme(scheme: ColorScheme, dark: Palette, light: Palette) -> (r: DerivedPalettes)
    ensures
        match scheme {
            ColorScheme::Dark => r.root == dark && r.prefers_light is None,
            ColorScheme::Light => r.root == light && r.prefers_light is None,
            ColorScheme::Auto => r.root == dark && r.prefers_light == Some(light),
        },
{
    match scheme {
        ColorScheme::Dark => DerivedPalettes { root: dark, prefers_light: None },
        ColorScheme::Light => DerivedPalettes { root: light, prefers_light: None },
        ColorScheme::Auto => DerivedPalettes { root: dark, prefers_light: Some(light) },
    }
}

/// The CSS custom properties of a palette.
pub open spec fn palette_vars_text(p: Palette) -> Seq<char> {
    "--bg:"@ + p.bg@ + "; --surface:"@ + p.surface@ + "; --border:"@ + p.border@ + "; --text:"@
        + p.text@ + "; --text-muted:"@ + p.text_muted@ + "; --accent:"@ + p.accent@
        + "; --accent-text:"@ + p.accent_text@ + "; --accent-glow:"@ + p.accent_glow@ + ";"@
}

/// Write a palette as CSS custom properties.
pub fn render_palette_vars(p: &Palette) -> (r: String)
    ensures
        r@ == palette_vars_text(*p),
{
    let mut out = to_owned("--bg:");
    push_str(&mut out, p.bg.as_str());
    push_str(&mut out, "; --surface:");
    push_str(&mut out, p.surface.as_str());
    push_str(&mut out, "; --border:");
    push_str(&mut out, p.border.as_str());
    push_str(&mut out, "; --text:");
    push_str(&mut out, p.text.as_str());
    push_str(&mut out, "; --text-muted:");
    push_str(&mut out, p.text_muted.as_str());
    push_str(&mut out, "; --accent:");
    push_str(&mut out, p.accent.as_str());
    push_str(&mut out, "; --accent-text:");
    push_str(&mut out, p.accent_text.as_str());
    push_str(&mut out, "; --accent-glow:");
    push_str(&mut out, p.accent_glow.as_str());
    push_str(&mut out, ";");
    out
}

/// The CSS font stack of a brand font.
pub open spec fn font_stack_text(font: FontPreset) -> Seq<char> {
    match font {
        FontPreset::System => "system-ui,-apple-system,'Segoe UI',sans-serif"@,
        FontPreset::Serif => "Georgia,'Times New Roman',serif"@,
        FontPreset::Rounded => "ui-rounded,'SF Pro Rounded','Hiragino Maru Gothic ProN',system-ui,sans-serif"@,
        FontPreset::Mono => "ui-monospace,'SF Mono','Cascadia Code',Menlo,monospace"@,
    }
}

/// The CSS font stack of a brand font.
pub fn font_stack(font: FontPreset) -> (r: &'static str)
    ensures
        r@ == font_stack_text(font),
{
    match font {
        FontPreset::System => "system-ui,-apple-system,'Segoe UI',sans-serif",
        FontPreset::Serif => "Georgia,'Times New Roman',serif",
        FontPreset::Rounded => "ui-rounded,'SF Pro Rounded','Hiragino Maru Gothic ProN',system-ui,sans-serif",
        FontPreset::Mono => "ui-monospace,'SF Mono','Cascadia Code',Menlo,monospace",
    }
}

/// `(card radius, button radius)` of a corner style.
pub open spec fn corner_radii_text(corners: CornerStyle) -> (Seq<char>, Seq<char>) {
    match corners {
        CornerStyle::Sharp => ("4px"@, "4px"@),
        CornerStyle::Rounded => ("14px"@, "10px"@),
        CornerStyle::Pill => ("16px"@, "999px"@),
    }
}

/// `(card radius, button radius)` of a corner style.
pub fn corner_radii(corners: CornerStyle) -> (r: (&'static str, &'static str))
    ensures
        (r.0@, r.1@) == corner_radii_text(corners),
{
    match corners {
        CornerStyle::Sharp => ("4px", "4px"),
        CornerStyle::Rounded => ("14px", "10px"),
        CornerStyle::Pill => ("16px", "999px"),
    }
}

/// The page's CSS variables: the root palette with font and radii, and the
/// light palette under a `prefers-color-scheme: light` query when present.
pub open spec fn css_vars_text(palettes: DerivedPalettes, font: FontPreset, corners: CornerStyle) -> Seq<char> {
    let (card, btn) = corner_radii_text(corners);
    let root = ":root { "@ + palette_vars_text(palettes.root) + " --font:"@ + font_stack_text(font)
        + "; --radius:"@ + card + "; --radius-btn:"@ + btn + "; }"@;
    match palettes.prefers_light {
        Some(light) => root + " @media (prefers-color-scheme: light) { :root { "@ + palette_vars_text(
            light,
        ) + " } }"@,
        None => root,
    }
}

/// Build the page's CSS variables.
pub fn build_css_vars(palettes: &DerivedPalettes, font: FontPreset, corners: CornerStyle) -> (r: String)
    ensures
        r@ == css_vars_text(*palettes, font, corners),
{
    let (card, btn) = corner_radii(corners);
    let root = render_palette_vars(&palettes.root);
    let mut css = to_owned(":root { ");
    push_str(&mut css, root.as_str());
    push_str(&mut css, " --font:");
    push_str(&mut css, font_stack(font));
    push_str(&mut css, "; --radius:");
    push_str(&mut css, card);
    push_str(&mut css, "; --radius-btn:");
    push_str(&mut css, btn);
    push_str(&mut css, "; }");
    if let Some(light) = &palettes.prefers_light {
        let light_vars = render_palette_vars(light);
        push_str(&mut css, " @media (prefers-color-scheme: light) { :root { ");
        push_str(&mut css, light_vars.as_str());
        push_str(&mut css, " } }");
    }
    css
}

} // verus!
