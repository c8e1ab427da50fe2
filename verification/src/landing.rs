//! The effective theme of a landing page: Rift's defaults, then the tenant's
//! default theme, the domain's theme and the link's theme applied in turn,
//! then the link's own copy overrides.
//!
//! Each stored theme only says what it changes (every field is optional);
//! applying it replaces exactly those fields of the effective theme.

use vstd::prelude::*;
use crate::config::opt_view;
use crate::text::{to_owned, concat2, replace, replace_str};
use crate::themes::{
    override_with, BackgroundStyle, ButtonStyle, CardStyle, ContentAlignment, ContentWidth,
    FontPreset, LandingTheme, LayoutTemplate, RadiusPreset, ShadowPreset, ThemeBackground,
    ThemeCopy, ThemeLayout, ThemeMedia, ThemeModules, ThemePalette, ThemeSeo, ThemeShape,
    ThemeTokens, ThemeTypography, TypeScale,
};
use crate::links::LinkThemeOverride;

verus! {

/// The theme a landing page is rendered with. `overlay_opacity` is the
/// decimal text of the opacity laid over a background image.
#[derive(Clone, Debug)]
pub struct EffectiveTheme {
    pub brand_name: String,
    pub tagline: Option<String>,
    pub headline: String,
    pub subheadline: Option<String>,
    pub badge_text: Option<String>,
    pub primary_cta_label: Option<String>,
    pub footer_text: Option<String>,
    pub icon_url: Option<String>,
    pub logo_url: Option<String>,
    pub wordmark_url: Option<String>,
    pub hero_image_url: Option<String>,
    pub og_title: String,
    pub og_description: String,
    pub og_image_url: Option<String>,
    pub template: LayoutTemplate,
    pub alignment: ContentAlignment,
    pub content_width: ContentWidth,
    pub background_style: BackgroundStyle,
    pub background_solid: String,
    pub background_gradient_from: String,
    pub background_gradient_to: String,
    pub background_gradient_angle: i32,
    pub background_image_url: Option<String>,
    pub overlay_opacity: String,
    pub primary: String,
    pub secondary: String,
    pub accent: String,
    pub surface: String,
    pub surface_muted: String,
    pub text: String,
    pub text_muted: String,
    pub border: String,
    pub success: String,
    pub warning: String,
    pub danger: String,
    pub radius_px: usize,
    pub heading_font: &'static str,
    pub body_font: &'static str,
    pub mono_font: &'static str,
    pub heading_size_px: usize,
    pub body_size_px: usize,
    pub shadow_css: &'static str,
    pub card_surface_css: String,
    pub cta_style: ButtonStyle,
    pub show_logo: bool,
    pub show_icon: bool,
    pub show_hero_image: bool,
    pub show_footer: bool,
    pub show_store_badges: bool,
}

/// The value of an [`EffectiveTheme`], strings taken as character sequences.
pub struct ThemeView {
    pub brand_name: Seq<char>,
    pub tagline: Option<Seq<char>>,
    pub headline: Seq<char>,
    pub subheadline: Option<Seq<char>>,
    pub badge_text: Option<Seq<char>>,
    pub primary_cta_label: Option<Seq<char>>,
    pub footer_text: Option<Seq<char>>,
    pub icon_url: Option<Seq<char>>,
    pub logo_url: Option<Seq<char>>,
    pub wordmark_url: Option<Seq<char>>,
    pub hero_image_url: Option<Seq<char>>,
    pub og_title: Seq<char>,
    pub og_description: Seq<char>,
    pub og_image_url: Option<Seq<char>>,
    pub template: LayoutTemplate,
    pub alignment: ContentAlignment,
    pub content_width: ContentWidth,
    pub background_style: BackgroundStyle,
    pub background_solid: Seq<char>,
    pub background_gradient_from: Seq<char>,
    pub background_gradient_to: Seq<char>,
    pub background_gradient_angle: i32,
    pub background_image_url: Option<Seq<char>>,
    pub overlay_opacity: Seq<char>,
    pub primary: Seq<char>,
    pub secondary: Seq<char>,
    pub accent: Seq<char>,
    pub surface: Seq<char>,
    pub surface_muted: Seq<char>,
    pub text: Seq<char>,
    pub text_muted: Seq<char>,
    pub border: Seq<char>,
    pub success: Seq<char>,
    pub warning: Seq<char>,
    pub danger: Seq<char>,
    pub radius_px: usize,
    pub heading_font: Seq<char>,
    pub body_font: Seq<char>,
    pub mono_font: Seq<char>,
    pub heading_size_px: usize,
    pub body_size_px: usize,
    pub shadow_css: Seq<char>,
    pub card_surface_css: Seq<char>,
    pub cta_style: ButtonStyle,
    pub show_logo: bool,
    pub show_icon: bool,
    pub show_hero_image: bool,
    pub show_footer: bool,
    pub show_store_badges: bool,
}

impl View for EffectiveTheme {
    type V = ThemeView;

    open spec fn view(&self) -> ThemeView {
        ThemeView {
            brand_name: self.brand_name@,
            tagline: opt_view(&self.tagline),
            headline: self.headline@,
            subheadline: opt_view(&self.subheadline),
            badge_text: opt_view(&self.badge_text),
            primary_cta_label: opt_view(&self.primary_cta_label),
            footer_text: opt_view(&self.footer_text),
            icon_url: opt_view(&self.icon_url),
            logo_url: opt_view(&self.logo_url),
            wordmark_url: opt_view(&self.wordmark_url),
            hero_image_url: opt_view(&self.hero_image_url),
            og_title: self.og_title@,
            og_description: self.og_description@,
            og_image_url: opt_view(&self.og_image_url),
            template: self.template,
            alignment: self.alignment,
            content_width: self.content_width,
            background_style: self.background_style,
            background_solid: self.background_solid@,
            background_gradient_from: self.background_gradient_from@,
            background_gradient_to: self.background_gradient_to@,
            background_gradient_angle: self.background_gradient_angle,
            background_image_url: opt_view(&self.background_image_url),
            overlay_opacity: self.overlay_opacity@,
            primary: self.primary@,
            secondary: self.secondary@,
            accent: self.accent@,
            surface: self.surface@,
            surface_muted: self.surface_muted@,
            text: self.text@,
            text_muted: self.text_muted@,
            border: self.border@,
            success: self.success@,
            warning: self.warning@,
            danger: self.danger@,
            radius_px: self.radius_px,
            heading_font: self.heading_font@,
            body_font: self.body_font@,
            mono_font: self.mono_font@,
            heading_size_px: self.heading_size_px,
            body_size_px: self.body_size_px,
            shadow_css: self.shadow_css@,
            card_surface_css: self.card_surface_css@,
            cta_style: self.cta_style,
            show_logo: self.show_logo,
            show_icon: self.show_icon,
            show_hero_image: self.show_hero_image,
            show_footer: self.show_footer,
            show_store_badges: self.show_store_badges,
        }
    }
}

// ── Style tables ──

/// The CSS font stack of a preset.
pub open spec fn font_stack_text(font: FontPreset) -> Seq<char> {
    match font {
        FontPreset::SystemSans => "ui-sans-serif, system-ui, -apple-system, BlinkMacSystemFont, sans-serif"@,
        FontPreset::ModernSans => "\"Avenir Next\", \"Segoe UI\", Helvetica, Arial, sans-serif"@,
        FontPreset::HumanistSans => "\"Gill Sans\", \"Trebuchet MS\", \"Segoe UI\", sans-serif"@,
        FontPreset::GeometricSans => "\"Futura\", \"Century Gothic\", \"Avenir Next\", sans-serif"@,
        FontPreset::EditorialSerif => "\"Iowan Old Style\", \"Palatino Linotype\", \"Book Antiqua\", Georgia, serif"@,
    }
}

/// The CSS font stack of a preset.
pub fn font_stack(font: FontPreset) -> (r: &'static str)
    ensures
        r@ == font_stack_text(font),
{
    match font {
        FontPreset::SystemSans => "ui-sans-serif, system-ui, -apple-system, BlinkMacSystemFont, sans-serif",
        FontPreset::ModernSans => "\"Avenir Next\", \"Segoe UI\", Helvetica, Arial, sans-serif",
        FontPreset::HumanistSans => "\"Gill Sans\", \"Trebuchet MS\", \"Segoe UI\", sans-serif",
        FontPreset::GeometricSans => "\"Futura\", \"Century Gothic\", \"Avenir Next\", sans-serif",
        FontPreset::EditorialSerif => "\"Iowan Old Style\", \"Palatino Linotype\", \"Book Antiqua\", Georgia, serif",
    }
}

/// The CSS `box-shadow` of a preset.
pub open spec fn shadow_text(shadow: ShadowPreset) -> Seq<char> {
    match shadow {
        ShadowPreset::NoShadow => "none"@,
        ShadowPreset::Soft => "0 18px 45px rgba(15, 23, 42, 0.16)"@,
        ShadowPreset::Medium => "0 24px 64px rgba(15, 23, 42, 0.24)"@,
        ShadowPreset::Dramatic => "0 32px 90px rgba(0, 0, 0, 0.42)"@,
    }
}

/// The CSS `box-shadow` of a preset.
pub fn shadow_css(shadow: ShadowPreset) -> (r: &'static str)
    ensures
        r@ == shadow_text(shadow),
{
    match shadow {
        ShadowPreset::NoShadow => "none",
        ShadowPreset::Soft => "0 18px 45px rgba(15, 23, 42, 0.16)",
        ShadowPreset::Medium => "0 24px 64px rgba(15, 23, 42, 0.24)",
        ShadowPreset::Dramatic => "0 32px 90px rgba(0, 0, 0, 0.42)",
    }
}

/// The CSS background of a card style.
pub open spec fn card_surface_text(style: CardStyle) -> Seq<char> {
    match style {
        CardStyle::Flat => "var(--surface-muted)"@,
        CardStyle::Elevated => "linear-gradient(180deg, rgba(255,255,255,0.06), rgba(255,255,255,0.01))"@,
        CardStyle::Glass => "linear-gradient(180deg, rgba(255,255,255,0.14), rgba(255,255,255,0.04))"@,
    }
}

/// The CSS background of a card style.
pub fn card_surface_css(style: CardStyle) -> (r: String)
    ensures
        r@ == card_surface_text(style),
{
    match style {
        CardStyle::Flat => to_owned("var(--surface-muted)"),
        CardStyle::Elevated => to_owned(
            "linear-gradient(180deg, rgba(255,255,255,0.06), rgba(255,255,255,0.01))",
        ),
        CardStyle::Glass => to_owned(
            "linear-gradient(180deg, rgba(255,255,255,0.14), rgba(255,255,255,0.04))",
        ),
    }
}

/// The CSS class of a button style.
pub open spec fn button_class_text(style: ButtonStyle) -> Seq<char> {
    match style {
        ButtonStyle::Solid => "btn-solid"@,
        ButtonStyle::Outline => "btn-outline"@,
        ButtonStyle::Soft => "btn-soft"@,
    }
}

/// The CSS class of a button style.
pub fn button_class(style: ButtonStyle) -> (r: &'static str)
    ensures
        r@ == button_class_text(style),
{
    match style {
        ButtonStyle::Solid => "btn-solid",
        ButtonStyle::Outline => "btn-outline",
        ButtonStyle::Soft => "btn-soft",
    }
}

/// Corner radius in pixels of a preset.
pub open spec fn radius_of(radius: RadiusPreset) -> usize {
    match radius {
        RadiusPreset::Sharp => 8,
        RadiusPreset::Soft => 18,
        RadiusPreset::Rounded => 26,
        RadiusPreset::Pill => 999,
    }
}

/// Heading and body sizes in pixels of a type scale.
pub open spec fn sizes_of(scale: TypeScale) -> (usize, usize) {
    match scale {
        TypeScale::Compact => (44, 15),
        TypeScale::Comfortable => (54, 17),
        TypeScale::Spacious => (64, 18),
    }
}

// ── Defaults ──

/// Rift's theme for an app with the given name, icon and link metadata.
pub open spec fn default_view(
    app_name: Option<Seq<char>>,
    app_icon_url: Option<Seq<char>>,
    meta_title: Option<Seq<char>>,
    meta_description: Option<Seq<char>>,
) -> ThemeView {
    let brand = match app_name {
        Some(n) => n,
        None => "App"@,
    };
    ThemeView {
        brand_name: brand,
        tagline: None,
        headline: match meta_title {
            Some(t) => t,
            None => "Open in "@ + brand,
        },
        subheadline: meta_description,
        badge_text: None,
        primary_cta_label: Some("Open "@ + brand),
        footer_text: None,
        icon_url: app_icon_url,
        logo_url: None,
        wordmark_url: None,
        hero_image_url: None,
        og_title: brand,
        og_description: match meta_description {
            Some(d) => d,
            None => "Open in app"@,
        },
        og_image_url: None,
        template: LayoutTemplate::Split,
        alignment: ContentAlignment::Center,
        content_width: ContentWidth::Regular,
        background_style: BackgroundStyle::Gradient,
        background_solid: "#0B1020"@,
        background_gradient_from: "#081019"@,
        background_gradient_to: "#162235"@,
        background_gradient_angle: 140,
        background_image_url: None,
        overlay_opacity: "0.28"@,
        primary: "#0d9488"@,
        secondary: "#1f2937"@,
        accent: "#14b8a6"@,
        surface: "#0d1117"@,
        surface_muted: "#121722"@,
        text: "#f8fafc"@,
        text_muted: "#94a3b8"@,
        border: "#223148"@,
        success: "#22c55e"@,
        warning: "#f59e0b"@,
        danger: "#ef4444"@,
        radius_px: 22,
        heading_font: font_stack_text(FontPreset::ModernSans),
        body_font: font_stack_text(FontPreset::HumanistSans),
        mono_font: font_stack_text(FontPreset::SystemSans),
        heading_size_px: 54,
        body_size_px: 17,
        shadow_css: shadow_text(ShadowPreset::Medium),
        card_surface_css: card_surface_text(CardStyle::Elevated),
        cta_style: ButtonStyle::Solid,
        show_logo: true,
        show_icon: true,
        show_hero_image: true,
        show_footer: true,
        show_store_badges: true,
    }
}

fn opt_str_to_string(o: Option<&str>) -> (r: Option<String>)
    ensures
        opt_view(&r) == match o {
            Some(s) => Some(s@),
            None => None::<Seq<char>>,
        },
{
    match o {
        Some(s) => Some(to_owned(s)),
        None => None,
    }
}

/// The view of an optional string slice.
pub open spec fn opt_str_view(o: Option<&str>) -> Option<Seq<char>> {
    match o {
        Some(s) => Some(s@),
        None => None,
    }
}

impl EffectiveTheme {
    /// Rift's theme for an app with the given name, icon and link metadata.
    pub fn default_from(
        app_name: Option<&str>,
        app_icon_url: Option<&str>,
        meta_title: Option<&str>,
        meta_description: Option<&str>,
    ) -> (r: Self)
        ensures
            r@ == default_view(
                opt_str_view(app_name),
                opt_str_view(app_icon_url),
                opt_str_view(meta_title),
                opt_str_view(meta_description),
            ),
    {
        let brand_name = match app_name {
            Some(n) => to_owned(n),
            None => to_owned("App"),
        };
        let headline = match meta_title {
            Some(t) => to_owned(t),
            None => concat2("Open in ", brand_name.as_str()),
        };
        let og_description = match meta_description {
            Some(d) => to_owned(d),
            None => to_owned("Open in app"),
        };
        let primary_cta_label = concat2("Open ", brand_name.as_str());
        EffectiveTheme {
            brand_name: brand_name.clone(),
            tagline: None,
            headline,
            subheadline: opt_str_to_string(meta_description),
            badge_text: None,
            primary_cta_label: Some(primary_cta_label),
            footer_text: None,
            icon_url: opt_str_to_string(app_icon_url),
            logo_url: None,
            wordmark_url: None,
            hero_image_url: None,
            og_title: brand_name,
            og_description,
            og_image_url: None,
            template: LayoutTemplate::Split,
            alignment: ContentAlignment::Center,
            content_width: ContentWidth::Regular,
            background_style: BackgroundStyle::Gradient,
            background_solid: to_owned("#0B1020"),
            background_gradient_from: to_owned("#081019"),
            background_gradient_to: to_owned("#162235"),
            background_gradient_angle: 140,
            background_image_url: None,
            overlay_opacity: to_owned("0.28"),
            primary: to_owned("#0d9488"),
            secondary: to_owned("#1f2937"),
            accent: to_owned("#14b8a6"),
            surface: to_owned("#0d1117"),
            surface_muted: to_owned("#121722"),
            text: to_owned("#f8fafc"),
            text_muted: to_owned("#94a3b8"),
            border: to_owned("#223148"),
            success: to_owned("#22c55e"),
            warning: to_owned("#f59e0b"),
            danger: to_owned("#ef4444"),
            radius_px: 22,
            heading_font: font_stack(FontPreset::ModernSans),
            body_font: font_stack(FontPreset::HumanistSans),
            mono_font: font_stack(FontPreset::SystemSans),
            heading_size_px: 54,
            body_size_px: 17,
            shadow_css: shadow_css(ShadowPreset::Medium),
            card_surface_css: card_surface_css(CardStyle::Elevated),
            cta_style: ButtonStyle::Solid,
            show_logo: true,
            show_icon: true,
            show_hero_image: true,
            show_footer: true,
            show_store_badges: true,
        }
    }
}

// ── Applying stored themes ──

/// `value` if present, else `current`.
pub open spec fn or_keep(current: Seq<char>, value: Option<String>) -> Seq<char> {
    match value {
        Some(v) => v@,
        None => current,
    }
}

/// `Some(value)` if present, else `current`.
pub open spec fn or_keep_opt(current: Option<Seq<char>>, value: Option<String>) -> Option<Seq<char>> {
    match value {
        Some(v) => Some(v@),
        None => current,
    }
}

/// The theme with a palette's colours in place.
pub open spec fn with_palette(t: ThemeView, p: ThemePalette) -> ThemeView {
    ThemeView {
        primary: or_keep(t.primary, p.primary),
        secondary: or_keep(t.secondary, p.secondary),
        accent: or_keep(t.accent, p.accent),
        background_solid: or_keep(t.background_solid, p.background),
        surface: or_keep(t.surface, p.surface),
        surface_muted: or_keep(t.surface_muted, p.surface_muted),
        text: or_keep(t.text, p.text),
        text_muted: or_keep(t.text_muted, p.text_muted),
        border: or_keep(t.border, p.border),
        success: or_keep(t.success, p.success),
        warning: or_keep(t.warning, p.warning),
        danger: or_keep(t.danger, p.danger),
        ..t
    }
}

/// The font stack of a preset if one is set, else `current`.
pub open spec fn font_or_keep(current: Seq<char>, f: Option<FontPreset>) -> Seq<char> {
    match f {
        Some(p) => font_stack_text(p),
        None => current,
    }
}

/// The theme with a typography's fonts and scale in place.
pub open spec fn with_typography(t: ThemeView, ty: ThemeTypography) -> ThemeView {
    ThemeView {
        heading_font: font_or_keep(t.heading_font, ty.heading_font),
        body_font: font_or_keep(t.body_font, ty.body_font),
        mono_font: font_or_keep(t.mono_font, ty.mono_font),
        heading_size_px: match ty.scale {
            Some(s) => sizes_of(s).0,
            None => t.heading_size_px,
        },
        body_size_px: match ty.scale {
            Some(s) => sizes_of(s).1,
            None => t.body_size_px,
        },
        ..t
    }
}

/// The theme with a shape's radius, button, card and shadow in place.
pub open spec fn with_shape(t: ThemeView, s: ThemeShape) -> ThemeView {
    ThemeView {
        radius_px: match s.radius {
            Some(r) => radius_of(r),
            None => t.radius_px,
        },
        cta_style: override_with(t.cta_style, s.button_style),
        card_surface_css: match s.card_style {
            Some(c) => card_surface_text(c),
            None => t.card_surface_css,
        },
        shadow_css: match s.shadow {
            Some(x) => shadow_text(x),
            None => t.shadow_css,
        },
        ..t
    }
}

/// The theme with a background in place.
pub open spec fn with_background(t: ThemeView, b: ThemeBackground) -> ThemeView {
    ThemeView {
        background_style: override_with(t.background_style, b.style),
        background_solid: or_keep(t.background_solid, b.solid),
        background_gradient_from: match b.gradient {
            Some(g) => or_keep(t.background_gradient_from, g.from),
            None => t.background_gradient_from,
        },
        background_gradient_to: match b.gradient {
            Some(g) => or_keep(t.background_gradient_to, g.to),
            None => t.background_gradient_to,
        },
        background_gradient_angle: match b.gradient {
            Some(g) => override_with(t.background_gradient_angle, g.angle),
            None => t.background_gradient_angle,
        },
        background_image_url: or_keep_opt(t.background_image_url, b.image_url),
        overlay_opacity: or_keep(t.overlay_opacity, b.overlay_opacity),
        ..t
    }
}

/// The theme with a set of design tokens in place: palette, typography,
/// shape, then background.
pub open spec fn with_tokens(t: ThemeView, k: ThemeTokens) -> ThemeView {
    let t1 = match k.palette {
        Some(p) => with_palette(t, p),
        None => t,
    };
    let t2 = match k.typography {
        Some(ty) => with_typography(t1, ty),
        None => t1,
    };
    let t3 = match k.shape {
        Some(s) => with_shape(t2, s),
        None => t2,
    };
    match k.background {
        Some(b) => with_background(t3, b),
        None => t3,
    }
}

/// The theme with a copy in place. A default headline also becomes the
/// social title, a default subheadline the social description.
pub open spec fn with_copy(t: ThemeView, c: ThemeCopy) -> ThemeView {
    ThemeView {
        brand_name: or_keep(t.brand_name, c.brand_name),
        tagline: or_keep_opt(t.tagline, c.tagline),
        headline: or_keep(t.headline, c.default_headline),
        og_title: or_keep(t.og_title, c.default_headline),
        subheadline: or_keep_opt(t.subheadline, c.default_subheadline),
        og_description: or_keep(t.og_description, c.default_subheadline),
        primary_cta_label: or_keep_opt(t.primary_cta_label, c.primary_cta_label),
        footer_text: or_keep_opt(t.footer_text, c.footer_text),
        ..t
    }
}

/// The theme with brand imagery in place.
pub open spec fn with_media(t: ThemeView, m: ThemeMedia) -> ThemeView {
    ThemeView {
        logo_url: or_keep_opt(t.logo_url, m.logo_url),
        wordmark_url: or_keep_opt(t.wordmark_url, m.wordmark_url),
        icon_url: or_keep_opt(t.icon_url, m.icon_url),
        hero_image_url: or_keep_opt(t.hero_image_url, m.hero_image_url),
        og_image_url: or_keep_opt(t.og_image_url, m.og_image_url),
        ..t
    }
}

/// The theme with layout choices in place.
pub open spec fn with_layout(t: ThemeView, l: ThemeLayout) -> ThemeView {
    ThemeView {
        template: override_with(t.template, l.template),
        alignment: override_with(t.alignment, l.alignment),
        content_width: override_with(t.content_width, l.content_width),
        ..t
    }
}

/// The theme with module switches in place.
pub open spec fn with_modules(t: ThemeView, m: ThemeModules) -> ThemeView {
    ThemeView {
        show_logo: override_with(t.show_logo, m.show_logo),
        show_icon: override_with(t.show_icon, m.show_icon),
        show_hero_image: override_with(t.show_hero_image, m.show_hero_image),
        show_footer: override_with(t.show_footer, m.show_footer),
        show_store_badges: override_with(t.show_store_badges, m.show_store_badges),
        ..t
    }
}

/// The subheadline, or `Open in app` when there is none.
pub open spec fn subheadline_or_default(t: ThemeView) -> Seq<char> {
    match t.subheadline {
        Some(s) => s,
        None => "Open in app"@,
    }
}

/// The theme with social-card templates filled in from its headline and
/// subheadline.
pub open spec fn with_seo(t: ThemeView, s: ThemeSeo) -> ThemeView {
    ThemeView {
        og_title: match s.default_og_title_template {
            Some(x) => replace(x@, "{{link.title}}"@, t.headline),
            None => t.og_title,
        },
        og_description: match s.default_og_description_template {
            Some(x) => replace(x@, "{{link.description}}"@, subheadline_or_default(t)),
            None => t.og_description,
        },
        ..t
    }
}

/// The theme with a whole stored theme applied: tokens, copy, media,
/// layout, modules, then the social-card templates.
pub open spec fn with_theme(t: ThemeView, lt: LandingTheme) -> ThemeView {
    with_seo(
        with_modules(
            with_layout(with_media(with_copy(with_tokens(t, lt.tokens), lt.copy), lt.media), lt.layout),
            lt.modules,
        ),
        lt.seo,
    )
}

fn set_some(dst: &mut Option<String>, value: &Option<String>)
    ensures
        opt_view(final(dst)) == or_keep_opt(opt_view(old(dst)), *value),
{
    if let Some(v) = value {
        *dst = Some(v.clone());
    }
}

fn set_text(dst: &mut String, value: &Option<String>)
    ensures
        final(dst)@ == or_keep(old(dst)@, *value),
{
    if let Some(v) = value {
        *dst = v.clone();
    }
}

fn set_value<T: Copy>(dst: &mut T, value: Option<T>)
    ensures
        *final(dst) == override_with(*old(dst), value),
{
    if let Some(v) = value {
        *dst = v;
    }
}

fn set_font(dst: &mut &'static str, value: Option<FontPreset>)
    ensures
        final(dst)@ == font_or_keep(old(dst)@, value),
{
    if let Some(f) = value {
        *dst = font_stack(f);
    }
}

fn apply_palette(theme: &mut EffectiveTheme, palette: &ThemePalette)
    ensures
        final(theme)@ == with_palette(old(theme)@, *palette),
{
    set_text(&mut theme.primary, &palette.primary);
    set_text(&mut theme.secondary, &palette.secondary);
    set_text(&mut theme.accent, &palette.accent);
    set_text(&mut theme.background_solid, &palette.background);
    set_text(&mut theme.surface, &palette.surface);
    set_text(&mut theme.surface_muted, &palette.surface_muted);
    set_text(&mut theme.text, &palette.text);
    set_text(&mut theme.text_muted, &palette.text_muted);
    set_text(&mut theme.border, &palette.border);
    set_text(&mut theme.success, &palette.success);
    set_text(&mut theme.warning, &palette.warning);
    set_text(&mut theme.danger, &palette.danger);
}

fn apply_typography(theme: &mut EffectiveTheme, typography: &ThemeTypography)
    ensures
        final(theme)@ == with_typography(old(theme)@, *typography),
{
    set_font(&mut theme.heading_font, typography.heading_font);
    set_font(&mut theme.body_font, typography.body_font);
    set_font(&mut theme.mono_font, typography.mono_font);
    if let Some(scale) = typography.scale {
        let (heading, body): (usize, usize) = match scale {
            TypeScale::Compact => (44, 15),
            TypeScale::Comfortable => (54, 17),
            TypeScale::Spacious => (64, 18),
        };
        theme.heading_size_px = heading;
        theme.body_size_px = body;
    }
}

fn apply_shape(theme: &mut EffectiveTheme, shape: &ThemeShape)
    ensures
        final(theme)@ == with_shape(old(theme)@, *shape),
{
    if let Some(radius) = shape.radius {
        theme.radius_px = match radius {
            RadiusPreset::Sharp => 8,
            RadiusPreset::Soft => 18,
            RadiusPreset::Rounded => 26,
            RadiusPreset::Pill => 999,
        };
    }
    set_value(&mut theme.cta_style, shape.button_style);
    if let Some(card_style) = shape.card_style {
        theme.card_surface_css = card_surface_css(card_style);
    }
    if let Some(shadow) = shape.shadow {
        theme.shadow_css = shadow_css(shadow);
    }
}

fn apply_gradient(theme: &mut EffectiveTheme, gradient: &Option<crate::themes::GradientConfig>)
    ensures
        final(theme)@ == (ThemeView {
            background_gradient_from: match *gradient {
                Some(g) => or_keep(old(theme)@.background_gradient_from, g.from),
                None => old(theme)@.background_gradient_from,
            },
            background_gradient_to: match *gradient {
                Some(g) => or_keep(old(theme)@.background_gradient_to, g.to),
                None => old(theme)@.background_gradient_to,
            },
            background_gradient_angle: match *gradient {
                Some(g) => override_with(old(theme)@.background_gradient_angle, g.angle),
                None => old(theme)@.background_gradient_angle,
            },
            ..old(theme)@
        }),
{
    if let Some(gradient) = gradient {
        set_text(&mut theme.background_gradient_from, &gradient.from);
        set_text(&mut theme.background_gradient_to, &gradient.to);
        set_value(&mut theme.background_gradient_angle, gradient.angle);
    }
}

fn apply_background(theme: &mut EffectiveTheme, background: &ThemeBackground)
    ensures
        final(theme)@ == with_background(old(theme)@, *background),
{
    set_value(&mut theme.background_style, background.style);
    set_text(&mut theme.background_solid, &background.solid);
    apply_gradient(theme, &background.gradient);
    set_some(&mut theme.background_image_url, &background.image_url);
    set_text(&mut theme.overlay_opacity, &background.overlay_opacity);
}

fn apply_tokens(theme: &mut EffectiveTheme, tokens: &ThemeTokens)
    ensures
        final(theme)@ == with_tokens(old(theme)@, *tokens),
{
    if let Some(palette) = &tokens.palette {
        apply_palette(theme, palette);
    }
    if let Some(typography) = &tokens.typography {
        apply_typography(theme, typography);
    }
    if let Some(shape) = &tokens.shape {
        apply_shape(theme, shape);
    }
    if let Some(background) = &tokens.background {
        apply_background(theme, background);
    }
}

fn apply_copy(theme: &mut EffectiveTheme, copy: &ThemeCopy)
    ensures
        final(theme)@ == with_copy(old(theme)@, *copy),
{
    set_text(&mut theme.brand_name, &copy.brand_name);
    set_some(&mut theme.tagline, &copy.tagline);
    set_text(&mut theme.headline, &copy.default_headline);
    set_text(&mut theme.og_title, &copy.default_headline);
    set_some(&mut theme.subheadline, &copy.default_subheadline);
    set_text(&mut theme.og_description, &copy.default_subheadline);
    set_some(&mut theme.primary_cta_label, &copy.primary_cta_label);
    set_some(&mut theme.footer_text, &copy.footer_text);
}

fn apply_media(theme: &mut EffectiveTheme, media: &ThemeMedia)
    ensures
        final(theme)@ == with_media(old(theme)@, *media),
{
    set_some(&mut theme.logo_url, &media.logo_url);
    set_some(&mut theme.wordmark_url, &media.wordmark_url);
    set_some(&mut theme.icon_url, &media.icon_url);
    set_some(&mut theme.hero_image_url, &media.hero_image_url);
    set_some(&mut theme.og_image_url, &media.og_image_url);
}

fn apply_layout(theme: &mut EffectiveTheme, layout: &ThemeLayout)
    ensures
        final(theme)@ == with_layout(old(theme)@, *layout),
{
    set_value(&mut theme.template, layout.template);
    set_value(&mut theme.alignment, layout.alignment);
    set_value(&mut theme.content_width, layout.content_width);
}

fn apply_modules(theme: &mut EffectiveTheme, modules: &ThemeModules)
    ensures
        final(theme)@ == with_modules(old(theme)@, *modules),
{
    set_value(&mut theme.show_logo, modules.show_logo);
    set_value(&mut theme.show_icon, modules.show_icon);
    set_value(&mut theme.show_hero_image, modules.show_hero_image);
    set_value(&mut theme.show_footer, modules.show_footer);
    set_value(&mut theme.show_store_badges, modules.show_store_badges);
}

fn apply_seo(theme: &mut EffectiveTheme, seo: &ThemeSeo)
    ensures
        final(theme)@ == with_seo(old(theme)@, *seo),
{
    proof {
        reveal_strlit("{{link.title}}");
        reveal_strlit("{{link.description}}");
    }
    if let Some(value) = &seo.default_og_title_template {
        theme.og_title = replace_str(value.as_str(), "{{link.title}}", theme.headline.as_str());
    }
    if let Some(value) = &seo.default_og_description_template {
        let description = match &theme.subheadline {
            Some(s) => s.as_str(),
            None => "Open in app",
        };
        theme.og_description = replace_str(value.as_str(), "{{link.description}}", description);
    }
}

impl EffectiveTheme {
    /// Apply a stored theme: tokens, copy, media, layout, modules, then the
    /// social-card templates.
    pub fn apply_theme(&mut self, theme: &LandingTheme)
        ensures
            final(self)@ == with_theme(old(self)@, *theme),
    {
        apply_tokens(self, &theme.tokens);
        apply_copy(self, &theme.copy);
        apply_media(self, &theme.media);
        apply_layout(self, &theme.layout);
        apply_modules(self, &theme.modules);
        apply_seo(self, &theme.seo);
    }
}

// ── Per-link overrides ──

/// The theme with the link's metadata and its override applied: metadata
/// sets the social card; the override's headline and subheadline also set the
/// social title and description, and its explicit social fields win over both.
pub open spec fn with_link_override(
    t: ThemeView,
    link_override: Option<LinkThemeOverride>,
    meta_title: Option<Seq<char>>,
    meta_description: Option<Seq<char>>,
    meta_image: Option<Seq<char>>,
) -> ThemeView {
    let m = ThemeView {
        og_title: match meta_title {
            Some(x) => x,
            None => t.og_title,
        },
        og_description: match meta_description {
            Some(x) => x,
            None => t.og_description,
        },
        og_image_url: match meta_image {
            Some(x) => Some(x),
            None => t.og_image_url,
        },
        ..t
    };
    match link_override {
        None => m,
        Some(o) => ThemeView {
            headline: or_keep(m.headline, o.headline),
            og_title: or_keep(or_keep(m.og_title, o.headline), o.og_title),
            subheadline: or_keep_opt(m.subheadline, o.subheadline),
            og_description: or_keep(or_keep(m.og_description, o.subheadline), o.og_description),
            badge_text: or_keep_opt(m.badge_text, o.badge_text),
            hero_image_url: or_keep_opt(m.hero_image_url, o.hero_image_url),
            primary_cta_label: or_keep_opt(m.primary_cta_label, o.primary_cta_label),
            og_image_url: or_keep_opt(m.og_image_url, o.og_image_url),
            ..m
        },
    }
}

/// The link's page metadata and per-link override on top of a theme: every
/// override field that is present wins (a headline or subheadline also
/// becomes the share title or description unless an explicit share
/// override is given); the page's meta title, description and image fill
/// the share fields where the override says nothing of them; every field
/// the override leaves absent keeps the theme's value, and nothing else of
/// the theme changes.
pub proof fn lemma_link_override_fields(
    t: ThemeView,
    o: LinkThemeOverride,
    meta_title: Option<Seq<char>>,
    meta_description: Option<Seq<char>>,
    meta_image: Option<Seq<char>>,
)
    ensures
        ({
            let r = with_link_override(t, Some(o), meta_title, meta_description, meta_image);
            &&& o.headline is Some ==> r.headline == o.headline->0@
            &&& o.headline is None ==> r.headline == t.headline
            &&& o.subheadline is Some ==> r.subheadline == Some(o.subheadline->0@)
            &&& o.subheadline is None ==> r.subheadline == t.subheadline
            &&& o.badge_text is Some ==> r.badge_text == Some(o.badge_text->0@)
            &&& o.badge_text is None ==> r.badge_text == t.badge_text
            &&& o.hero_image_url is Some ==> r.hero_image_url == Some(o.hero_image_url->0@)
            &&& o.hero_image_url is None ==> r.hero_image_url == t.hero_image_url
            &&& o.primary_cta_label is Some ==> r.primary_cta_label == Some(
                o.primary_cta_label->0@,
            )
            &&& o.primary_cta_label is None ==> r.primary_cta_label == t.primary_cta_label
            &&& o.og_title is Some ==> r.og_title == o.og_title->0@
            &&& o.og_title is None && o.headline is Some ==> r.og_title == o.headline->0@
            &&& o.og_title is None && o.headline is None && meta_title is Some ==> r.og_title
                == meta_title->0
            &&& o.og_title is None && o.headline is None && meta_title is None ==> r.og_title
                == t.og_title
            &&& o.og_description is Some ==> r.og_description == o.og_description->0@
            &&& o.og_description is None && o.subheadline is Some ==> r.og_description
                == o.subheadline->0@
            &&& o.og_description is None && o.subheadline is None && meta_description is Some
                ==> r.og_description == meta_description->0
            &&& o.og_description is None && o.subheadline is None && meta_description is None
                ==> r.og_description == t.og_description
            &&& o.og_image_url is Some ==> r.og_image_url == Some(o.og_image_url->0@)
            &&& o.og_image_url is None && meta_image is Some ==> r.og_image_url == meta_image
            &&& o.og_image_url is None && meta_image is None ==> r.og_image_url == t.og_image_url
            &&& (ThemeView {
                headline: t.headline,
                subheadline: t.subheadline,
                badge_text: t.badge_text,
                hero_image_url: t.hero_image_url,
                primary_cta_label: t.primary_cta_label,
                og_title: t.og_title,
                og_description: t.og_description,
                og_image_url: t.og_image_url,
                ..r
            }) == t
        }),
{
}

/// Without a per-link override only the page metadata applies: the meta
/// title, description and image replace the share fields they are given
/// for, and nothing else of the theme changes.
pub proof fn lemma_link_meta_only(
    t: ThemeView,
    meta_title: Option<Seq<char>>,
    meta_description: Option<Seq<char>>,
    meta_image: Option<Seq<char>>,
)
    ensures
        ({
            let r = with_link_override(t, None, meta_title, meta_description, meta_image);
            &&& r.og_title == (if meta_title is Some { meta_title->0 } else { t.og_title })
            &&& r.og_description == (if meta_description is Some {
                meta_description->0
            } else {
                t.og_description
            })
            &&& r.og_image_url == (if meta_image is Some { meta_image } else { t.og_image_url })
            &&& (ThemeView {
                og_title: t.og_title,
                og_description: t.og_description,
                og_image_url: t.og_image_url,
                ..r
            }) == t
        }),
{
}

fn set_from_str(dst: &mut String, value: Option<&str>)
    ensures
        final(dst)@ == match value {
            Some(x) => x@,
            None => old(dst)@,
        },
{
    if let Some(v) = value {
        *dst = to_owned(v);
    }
}

impl EffectiveTheme {
    /// Apply the link's metadata and per-link override.
    pub fn apply_link_override(
        &mut self,
        link_override: Option<&LinkThemeOverride>,
        meta_title: Option<&str>,
        meta_description: Option<&str>,
        meta_image: Option<&str>,
    )
        ensures
            final(self)@ == with_link_override(
                old(self)@,
                match link_override {
                    Some(o) => Some(*o),
                    None => None,
                },
                opt_str_view(meta_title),
                opt_str_view(meta_description),
                opt_str_view(meta_image),
            ),
    {
        set_from_str(&mut self.og_title, meta_title);
        set_from_str(&mut self.og_description, meta_description);
        if let Some(image) = meta_image {
            self.og_image_url = Some(to_owned(image));
        }
        let Some(o) = link_override else {
            return;
        };
        set_text(&mut self.headline, &o.headline);
        set_text(&mut self.og_title, &o.headline);
        set_some(&mut self.subheadline, &o.subheadline);
        set_text(&mut self.og_description, &o.subheadline);
        set_some(&mut self.badge_text, &o.badge_text);
        set_some(&mut self.hero_image_url, &o.hero_image_url);
        set_some(&mut self.primary_cta_label, &o.primary_cta_label);
        set_text(&mut self.og_title, &o.og_title);
        set_text(&mut self.og_description, &o.og_description);
        set_some(&mut self.og_image_url, &o.og_image_url);
    }
}

/// The effective theme of a link: Rift's defaults for the app, then the
/// tenant's default theme, the domain's theme and the link's theme where each
/// exists, then the link's metadata and override.
pub open spec fn effective_view(
    app_name: Option<Seq<char>>,
    app_icon_url: Option<Seq<char>>,
    meta_title: Option<Seq<char>>,
    meta_description: Option<Seq<char>>,
    meta_image: Option<Seq<char>>,
    default_theme: Option<LandingTheme>,
    domain_theme: Option<LandingTheme>,
    link_theme: Option<LandingTheme>,
    link_override: Option<LinkThemeOverride>,
) -> ThemeView {
    let t0 = default_view(app_name, app_icon_url, meta_title, meta_description);
    let t1 = match default_theme {
        Some(x) => with_theme(t0, x),
        None => t0,
    };
    let t2 = match domain_theme {
        Some(x) => with_theme(t1, x),
        None => t1,
    };
    let t3 = match link_theme {
        Some(x) => with_theme(t2, x),
        None => t2,
    };
    with_link_override(t3, link_override, meta_title, meta_description, meta_image)
}

/// The view of an optional reference.
pub open spec fn opt_ref<T>(o: Option<&T>) -> Option<T> {
    match o {
        Some(x) => Some(*x),
        None => None,
    }
}

/// Build the effective theme of a link from the themes found for it.
pub fn effective_theme(
    app_name: Option<&str>,
    app_icon_url: Option<&str>,
    meta_title: Option<&str>,
    meta_description: Option<&str>,
    meta_image: Option<&str>,
    default_theme: Option<&LandingTheme>,
    domain_theme: Option<&LandingTheme>,
    link_theme: Option<&LandingTheme>,
    link_override: Option<&LinkThemeOverride>,
) -> (r: EffectiveTheme)
    ensures
        r@ == effective_view(
            opt_str_view(app_name),
            opt_str_view(app_icon_url),
            opt_str_view(meta_title),
            opt_str_view(meta_description),
            opt_str_view(meta_image),
            opt_ref(default_theme),
            opt_ref(domain_theme),
            opt_ref(link_theme),
            opt_ref(link_override),
        ),
{
    let mut themed = EffectiveTheme::default_from(app_name, app_icon_url, meta_title, meta_description);
    if let Some(t) = default_theme {
        themed.apply_theme(t);
    }
    if let Some(t) = domain_theme {
        themed.apply_theme(t);
    }
    if let Some(t) = link_theme {
        themed.apply_theme(t);
    }
    themed.apply_link_override(link_override, meta_title, meta_description, meta_image);
    themed
}

// ── Laws ──

/// A stored theme that sets nothing.
pub open spec fn is_blank_theme(lt: LandingTheme) -> bool {
    &&& lt.tokens.palette is None
    &&& lt.tokens.typography is None
    &&& lt.tokens.shape is None
    &&& lt.tokens.background is None
    &&& lt.copy.brand_name is None && lt.copy.tagline is None && lt.copy.default_headline is None
    &&& lt.copy.default_subheadline is None && lt.copy.primary_cta_label is None
    &&& lt.copy.footer_text is None
    &&& lt.media.logo_url is None && lt.media.wordmark_url is None && lt.media.icon_url is None
    &&& lt.media.hero_image_url is None && lt.media.og_image_url is None
    &&& lt.layout.template is None && lt.layout.alignment is None && lt.layout.content_width is None
    &&& lt.modules.show_logo is None && lt.modules.show_icon is None
    &&& lt.modules.show_hero_image is None && lt.modules.show_footer is None
    &&& lt.modules.show_store_badges is None
    &&& lt.seo.default_og_title_template is None && lt.seo.default_og_description_template is None
}

/// Applying a theme that sets nothing leaves the effective theme unchanged.
pub proof fn lemma_blank_theme_is_identity(t: ThemeView, lt: LandingTheme)
    requires
        is_blank_theme(lt),
    ensures
        with_theme(t, lt) == t,
{
}

/// The most specific theme wins: a colour that the link's own theme sets is
/// the page's colour, whatever the tenant's and the domain's themes say.
pub proof fn lemma_link_theme_colour_wins(
    app_name: Option<Seq<char>>,
    app_icon_url: Option<Seq<char>>,
    meta_title: Option<Seq<char>>,
    meta_description: Option<Seq<char>>,
    meta_image: Option<Seq<char>>,
    default_theme: Option<LandingTheme>,
    domain_theme: Option<LandingTheme>,
    link_theme: LandingTheme,
    link_override: Option<LinkThemeOverride>,
)
    requires
        link_theme.tokens.palette is Some,
        link_theme.tokens.palette->0.primary is Some,
    ensures
        effective_view(
            app_name,
            app_icon_url,
            meta_title,
            meta_description,
            meta_image,
            default_theme,
            domain_theme,
            Some(link_theme),
            link_override,
        ).primary == link_theme.tokens.palette->0.primary->0@,
{
}

/// A per-link headline wins over every theme: it is the page's headline,
/// and the social title unless the override sets one itself.
pub proof fn lemma_link_headline_wins(
    t: ThemeView,
    o: LinkThemeOverride,
    meta_title: Option<Seq<char>>,
    meta_description: Option<Seq<char>>,
    meta_image: Option<Seq<char>>,
)
    requires
        o.headline is Some,
    ensures
        with_link_override(t, Some(o), meta_title, meta_description, meta_image).headline
            == o.headline->0@,
        o.og_title is None ==> with_link_override(
            t,
            Some(o),
            meta_title,
            meta_description,
            meta_image,
        ).og_title == o.headline->0@,
{
}

// ── Demo themes ──

/// `s` without its trailing `c` characters (`str::trim_end_matches`).
pub open spec fn trim_end_char(s: Seq<char>, c: char) -> Seq<char>
    decreases s.len(),
{
    if s.len() > 0 && s.last() == c {
        trim_end_char(s.drop_last(), c)
    } else {
        s
    }
}

/// `s` without its trailing `c` characters.
pub fn trim_end_matches_char(s: &str, c: char) -> (r: String)
    ensures
        r@ == trim_end_char(s@, c),
{
    let v = crate::text::chars_of(s);
    let mut n = v.len();
    assert(v@.subrange(0, n as int) =~= v@);
    while n > 0 && v[n - 1] == c
        invariant
            n <= v.len(),
            v@ == s@,
            trim_end_char(s@, c) == trim_end_char(v@.subrange(0, n as int), c),
        decreases n,
    {
        assert(v@.subrange(0, n as int).drop_last() =~= v@.subrange(0, n - 1));
        n = n - 1;
    }
    let mut out = String::new();
    crate::text::push_chars(&mut out, &v, 0, n);
    assert(out@ =~= v@.subrange(0, n as int));
    out
}

/// Where a demo theme's assets are served: the public URL without trailing
/// slashes, then `/__preview/assets/` and the theme's slug.
pub open spec fn demo_base(public_url: Seq<char>, slug: Seq<char>) -> Seq<char> {
    trim_end_char(public_url, '/') + "/__preview/assets/"@ + slug
}

/// The `nord-roast` demo theme, its assets served under `base`.
pub open spec fn nord_roast_view(base: Seq<char>) -> ThemeView {
    ThemeView {
        brand_name: "Nord Roast"@,
        tagline: Some("Small-batch coffee, delivered beautifully."@),
        headline: "Your next bag is one tap away"@,
        subheadline: Some("Open the app to claim this roast, track delivery, and save your grind preferences."@),
        badge_text: Some("Roaster's Pick"@),
        primary_cta_label: Some("Open Nord Roast"@),
        footer_text: Some("Roasted weekly in Chicago."@),
        icon_url: Some(base + "/icon.png"@),
        logo_url: None,
        wordmark_url: None,
        hero_image_url: Some("https://images.pexels.com/photos/31950325/pexels-photo-31950325.jpeg?auto=compress&cs=tinysrgb&dpr=2&h=650&w=940"@),
        og_title: "Your next bag is one tap away"@,
        og_description: "Warm editorial coffee theme demo with tactile visuals and copper accents."@,
        og_image_url: Some("https://images.pexels.com/photos/31950325/pexels-photo-31950325.jpeg?auto=compress&cs=tinysrgb&dpr=2&h=650&w=940"@),
        template: LayoutTemplate::Editorial,
        alignment: ContentAlignment::Left,
        content_width: ContentWidth::Regular,
        background_style: BackgroundStyle::Solid,
        background_solid: "#F4EBDD"@,
        background_gradient_from: "#F4EBDD"@,
        background_gradient_to: "#EBDDCB"@,
        background_gradient_angle: 135,
        background_image_url: None,
        overlay_opacity: "0.18"@,
        primary: "#C46A2D"@,
        secondary: "#7B4B2A"@,
        accent: "#E6B17E"@,
        surface: "#FFF8EF"@,
        surface_muted: "#EBDDCB"@,
        text: "#2F241D"@,
        text_muted: "#6B5A4D"@,
        border: "#D7C3AA"@,
        success: "#4F7A4C"@,
        warning: "#B7791F"@,
        danger: "#B54A3A"@,
        radius_px: 18,
        heading_font: font_stack_text(FontPreset::EditorialSerif),
        body_font: font_stack_text(FontPreset::HumanistSans),
        mono_font: font_stack_text(FontPreset::SystemSans),
        heading_size_px: 56,
        body_size_px: 17,
        shadow_css: shadow_text(ShadowPreset::Soft),
        card_surface_css: card_surface_text(CardStyle::Elevated),
        cta_style: ButtonStyle::Solid,
        show_logo: true,
        show_icon: true,
        show_hero_image: true,
        show_footer: true,
        show_store_badges: true,
    }
}

fn nord_roast_theme(base: &str) -> (r: EffectiveTheme)
    ensures
        r@ == nord_roast_view(base@),
{
    EffectiveTheme {
        brand_name: to_owned("Nord Roast"),
        tagline: Some(to_owned("Small-batch coffee, delivered beautifully.")),
        headline: to_owned("Your next bag is one tap away"),
        subheadline: Some(to_owned("Open the app to claim this roast, track delivery, and save your grind preferences.")),
        badge_text: Some(to_owned("Roaster's Pick")),
        primary_cta_label: Some(to_owned("Open Nord Roast")),
        footer_text: Some(to_owned("Roasted weekly in Chicago.")),
        icon_url: Some(concat2(base, "/icon.png")),
        logo_url: None,
        wordmark_url: None,
        hero_image_url: Some(to_owned("https://images.pexels.com/photos/31950325/pexels-photo-31950325.jpeg?auto=compress&cs=tinysrgb&dpr=2&h=650&w=940")),
        og_title: to_owned("Your next bag is one tap away"),
        og_description: to_owned("Warm editorial coffee theme demo with tactile visuals and copper accents."),
        og_image_url: Some(to_owned("https://images.pexels.com/photos/31950325/pexels-photo-31950325.jpeg?auto=compress&cs=tinysrgb&dpr=2&h=650&w=940")),
        template: LayoutTemplate::Editorial,
        alignment: ContentAlignment::Left,
        content_width: ContentWidth::Regular,
        background_style: BackgroundStyle::Solid,
        background_solid: to_owned("#F4EBDD"),
        background_gradient_from: to_owned("#F4EBDD"),
        background_gradient_to: to_owned("#EBDDCB"),
        background_gradient_angle: 135,
        background_image_url: None,
        overlay_opacity: to_owned("0.18"),
        primary: to_owned("#C46A2D"),
        secondary: to_owned("#7B4B2A"),
        accent: to_owned("#E6B17E"),
        surface: to_owned("#FFF8EF"),
        surface_muted: to_owned("#EBDDCB"),
        text: to_owned("#2F241D"),
        text_muted: to_owned("#6B5A4D"),
        border: to_owned("#D7C3AA"),
        success: to_owned("#4F7A4C"),
        warning: to_owned("#B7791F"),
        danger: to_owned("#B54A3A"),
        radius_px: 18,
        heading_font: font_stack(FontPreset::EditorialSerif),
        body_font: font_stack(FontPreset::HumanistSans),
        mono_font: font_stack(FontPreset::SystemSans),
        heading_size_px: 56,
        body_size_px: 17,
        shadow_css: shadow_css(ShadowPreset::Soft),
        card_surface_css: card_surface_css(CardStyle::Elevated),
        cta_style: ButtonStyle::Solid,
        show_logo: true,
        show_icon: true,
        show_hero_image: true,
        show_footer: true,
        show_store_badges: true,
    }
}

/// The `volt-run` demo theme, its assets served under `base`.
pub open spec fn volt_run_view(base: Seq<char>) -> ThemeView {
    ThemeView {
        brand_name: "Volt Run"@,
        tagline: Some("Train louder."@),
        headline: "Start the challenge in the app"@,
        subheadline: Some("Unlock your plan, live splits, and team leaderboard in one place."@),
        badge_text: Some("Night Sprint"@),
        primary_cta_label: Some("Launch Volt Run"@),
        footer_text: Some("Performance training for urban athletes."@),
        icon_url: Some(base + "/icon.png"@),
        logo_url: None,
        wordmark_url: None,
        hero_image_url: Some("https://images.pexels.com/photos/12125324/pexels-photo-12125324.jpeg?auto=compress&cs=tinysrgb&dpr=2&h=650&w=940"@),
        og_title: "Start the challenge in the app"@,
        og_description: "High-contrast performance theme demo with neon accents and kinetic motion."@,
        og_image_url: Some("https://images.pexels.com/photos/12125324/pexels-photo-12125324.jpeg?auto=compress&cs=tinysrgb&dpr=2&h=650&w=940"@),
        template: LayoutTemplate::Split,
        alignment: ContentAlignment::Left,
        content_width: ContentWidth::Wide,
        background_style: BackgroundStyle::Gradient,
        background_solid: "#05070A"@,
        background_gradient_from: "#05070A"@,
        background_gradient_to: "#0E1621"@,
        background_gradient_angle: 145,
        background_image_url: None,
        overlay_opacity: "0.24"@,
        primary: "#B6FF00"@,
        secondary: "#00E5FF"@,
        accent: "#FFFFFF"@,
        surface: "#0D1117"@,
        surface_muted: "#151B23"@,
        text: "#F5F7FA"@,
        text_muted: "#9AA4B2"@,
        border: "#232C37"@,
        success: "#2DFF87"@,
        warning: "#FFC247"@,
        danger: "#FF5A6B"@,
        radius_px: 8,
        heading_font: font_stack_text(FontPreset::GeometricSans),
        body_font: font_stack_text(FontPreset::ModernSans),
        mono_font: font_stack_text(FontPreset::SystemSans),
        heading_size_px: 64,
        body_size_px: 18,
        shadow_css: shadow_text(ShadowPreset::Dramatic),
        card_surface_css: card_surface_text(CardStyle::Glass),
        cta_style: ButtonStyle::Outline,
        show_logo: true,
        show_icon: false,
        show_hero_image: true,
        show_footer: true,
        show_store_badges: true,
    }
}

fn volt_run_theme(base: &str) -> (r: EffectiveTheme)
    ensures
        r@ == volt_run_view(base@),
{
    EffectiveTheme {
        brand_name: to_owned("Volt Run"),
        tagline: Some(to_owned("Train louder.")),
        headline: to_owned("Start the challenge in the app"),
        subheadline: Some(to_owned("Unlock your plan, live splits, and team leaderboard in one place.")),
        badge_text: Some(to_owned("Night Sprint")),
        primary_cta_label: Some(to_owned("Launch Volt Run")),
        footer_text: Some(to_owned("Performance training for urban athletes.")),
        icon_url: Some(concat2(base, "/icon.png")),
        logo_url: None,
        wordmark_url: None,
        hero_image_url: Some(to_owned("https://images.pexels.com/photos/12125324/pexels-photo-12125324.jpeg?auto=compress&cs=tinysrgb&dpr=2&h=650&w=940")),
        og_title: to_owned("Start the challenge in the app"),
        og_description: to_owned("High-contrast performance theme demo with neon accents and kinetic motion."),
        og_image_url: Some(to_owned("https://images.pexels.com/photos/12125324/pexels-photo-12125324.jpeg?auto=compress&cs=tinysrgb&dpr=2&h=650&w=940")),
        template: LayoutTemplate::Split,
        alignment: ContentAlignment::Left,
        content_width: ContentWidth::Wide,
        background_style: BackgroundStyle::Gradient,
        background_solid: to_owned("#05070A"),
        background_gradient_from: to_owned("#05070A"),
        background_gradient_to: to_owned("#0E1621"),
        background_gradient_angle: 145,
        background_image_url: None,
        overlay_opacity: to_owned("0.24"),
        primary: to_owned("#B6FF00"),
        secondary: to_owned("#00E5FF"),
        accent: to_owned("#FFFFFF"),
        surface: to_owned("#0D1117"),
        surface_muted: to_owned("#151B23"),
        text: to_owned("#F5F7FA"),
        text_muted: to_owned("#9AA4B2"),
        border: to_owned("#232C37"),
        success: to_owned("#2DFF87"),
        warning: to_owned("#FFC247"),
        danger: to_owned("#FF5A6B"),
        radius_px: 8,
        heading_font: font_stack(FontPreset::GeometricSans),
        body_font: font_stack(FontPreset::ModernSans),
        mono_font: font_stack(FontPreset::SystemSans),
        heading_size_px: 64,
        body_size_px: 18,
        shadow_css: shadow_css(ShadowPreset::Dramatic),
        card_surface_css: card_surface_css(CardStyle::Glass),
        cta_style: ButtonStyle::Outline,
        show_logo: true,
        show_icon: false,
        show_hero_image: true,
        show_footer: true,
        show_store_badges: true,
    }
}

/// The `atelier-stay` demo theme, its assets served under `base`.
pub open spec fn atelier_stay_view(base: Seq<char>) -> ThemeView {
    ThemeView {
        brand_name: "Atelier Stay"@,
        tagline: Some("Private hotels for slower travel."@),
        headline: "Continue your reservation"@,
        subheadline: Some("Open the app to view suite details, arrival notes, and concierge recommendations."@),
        badge_text: Some("Founding Guest"@),
        primary_cta_label: Some("Open Atelier Stay"@),
        footer_text: Some("Member support available 24/7."@),
        icon_url: Some(base + "/icon.png"@),
        logo_url: None,
        wordmark_url: None,
        hero_image_url: Some("https://images.pexels.com/photos/338504/pexels-photo-338504.jpeg?auto=compress&cs=tinysrgb&h=650&w=940"@),
        og_title: "Continue your reservation"@,
        og_description: "Quiet luxury hospitality theme demo with bright editorial imagery."@,
        og_image_url: Some("https://images.pexels.com/photos/338504/pexels-photo-338504.jpeg?auto=compress&cs=tinysrgb&h=650&w=940"@),
        template: LayoutTemplate::Centered,
        alignment: ContentAlignment::Center,
        content_width: ContentWidth::Narrow,
        background_style: BackgroundStyle::Solid,
        background_solid: "#F7F4EF"@,
        background_gradient_from: "#F7F4EF"@,
        background_gradient_to: "#EFE8DE"@,
        background_gradient_angle: 180,
        background_image_url: None,
        overlay_opacity: "0.12"@,
        primary: "#1E3A5F"@,
        secondary: "#C8A96B"@,
        accent: "#8DA9C4"@,
        surface: "#FFFCF8"@,
        surface_muted: "#EFE8DE"@,
        text: "#1F2933"@,
        text_muted: "#6B7280"@,
        border: "#DDD4C8"@,
        success: "#507A5B"@,
        warning: "#B8893D"@,
        danger: "#A94E4E"@,
        radius_px: 26,
        heading_font: font_stack_text(FontPreset::EditorialSerif),
        body_font: font_stack_text(FontPreset::ModernSans),
        mono_font: font_stack_text(FontPreset::SystemSans),
        heading_size_px: 60,
        body_size_px: 18,
        shadow_css: shadow_text(ShadowPreset::NoShadow),
        card_surface_css: card_surface_text(CardStyle::Flat),
        cta_style: ButtonStyle::Soft,
        show_logo: true,
        show_icon: false,
        show_hero_image: true,
        show_footer: true,
        show_store_badges: true,
    }
}

fn atelier_stay_theme(base: &str) -> (r: EffectiveTheme)
    ensures
        r@ == atelier_stay_view(base@),
{
    EffectiveTheme {
        brand_name: to_owned("Atelier Stay"),
        tagline: Some(to_owned("Private hotels for slower travel.")),
        headline: to_owned("Continue your reservation"),
        subheadline: Some(to_owned("Open the app to view suite details, arrival notes, and concierge recommendations.")),
        badge_text: Some(to_owned("Founding Guest")),
        primary_cta_label: Some(to_owned("Open Atelier Stay")),
        footer_text: Some(to_owned("Member support available 24/7.")),
        icon_url: Some(concat2(base, "/icon.png")),
        logo_url: None,
        wordmark_url: None,
        hero_image_url: Some(to_owned("https://images.pexels.com/photos/338504/pexels-photo-338504.jpeg?auto=compress&cs=tinysrgb&h=650&w=940")),
        og_title: to_owned("Continue your reservation"),
        og_description: to_owned("Quiet luxury hospitality theme demo with bright editorial imagery."),
        og_image_url: Some(to_owned("https://images.pexels.com/photos/338504/pexels-photo-338504.jpeg?auto=compress&cs=tinysrgb&h=650&w=940")),
        template: LayoutTemplate::Centered,
        alignment: ContentAlignment::Center,
        content_width: ContentWidth::Narrow,
        background_style: BackgroundStyle::Solid,
        background_solid: to_owned("#F7F4EF"),
        background_gradient_from: to_owned("#F7F4EF"),
        background_gradient_to: to_owned("#EFE8DE"),
        background_gradient_angle: 180,
        background_image_url: None,
        overlay_opacity: to_owned("0.12"),
        primary: to_owned("#1E3A5F"),
        secondary: to_owned("#C8A96B"),
        accent: to_owned("#8DA9C4"),
        surface: to_owned("#FFFCF8"),
        surface_muted: to_owned("#EFE8DE"),
        text: to_owned("#1F2933"),
        text_muted: to_owned("#6B7280"),
        border: to_owned("#DDD4C8"),
        success: to_owned("#507A5B"),
        warning: to_owned("#B8893D"),
        danger: to_owned("#A94E4E"),
        radius_px: 26,
        heading_font: font_stack(FontPreset::EditorialSerif),
        body_font: font_stack(FontPreset::ModernSans),
        mono_font: font_stack(FontPreset::SystemSans),
        heading_size_px: 60,
        body_size_px: 18,
        shadow_css: shadow_css(ShadowPreset::NoShadow),
        card_surface_css: card_surface_css(CardStyle::Flat),
        cta_style: ButtonStyle::Soft,
        show_logo: true,
        show_icon: false,
        show_hero_image: true,
        show_footer: true,
        show_store_badges: true,
    }
}

/// The built-in demo theme of a slug, with its assets under the public URL;
/// `None` for any other slug.
pub open spec fn demo_view(public_url: Seq<char>, slug: Seq<char>) -> Option<ThemeView> {
    let base = demo_base(public_url, slug);
    if slug == "nord-roast"@ {
        Some(nord_roast_view(base))
    } else if slug == "volt-run"@ {
        Some(volt_run_view(base))
    } else if slug == "atelier-stay"@ {
        Some(atelier_stay_view(base))
    } else {
        None
    }
}

/// The built-in demo theme of `theme_slug`, its assets served from the
/// preview route of `public_url`.
pub fn demo_preview_theme(public_url: &str, theme_slug: &str) -> (r: Option<EffectiveTheme>)
    ensures
        match r {
            Some(t) => demo_view(public_url@, theme_slug@) == Some(t@),
            None => demo_view(public_url@, theme_slug@) is None,
        },
{
    let trimmed = trim_end_matches_char(public_url, '/');
    let base = crate::text::concat3(trimmed.as_str(), "/__preview/assets/", theme_slug);
    let mut theme = if crate::text::str_eq(theme_slug, "nord-roast") {
        nord_roast_theme(base.as_str())
    } else if crate::text::str_eq(theme_slug, "volt-run") {
        volt_run_theme(base.as_str())
    } else if crate::text::str_eq(theme_slug, "atelier-stay") {
        atelier_stay_theme(base.as_str())
    } else {
        return None;
    };
    theme.og_image_url = match &theme.hero_image_url {
        Some(u) => Some(u.clone()),
        None => None,
    };
    Some(theme)
}

/// The file of a demo-theme asset, below the server's source directory;
/// `None` unless both the theme and the asset are known.
pub open spec fn preview_asset_file(manifest_dir: Seq<char>, slug: Seq<char>, asset: Seq<char>) -> Option<Seq<char>> {
    let theme_ok = slug == "nord-roast"@ || slug == "volt-run"@ || slug == "atelier-stay"@;
    let asset_ok = asset == "hero.png"@ || asset == "icon.png"@ || asset == "logo.png"@ || asset
        == "wordmark.png"@;
    if theme_ok && asset_ok {
        Some(manifest_dir + "/../marketing/public/demo-themes/"@ + slug + "/"@ + asset)
    } else {
        None
    }
}

/// Path of a demo-theme asset under `manifest_dir`, for the four known
/// assets of the three demo themes.
pub fn preview_asset_path(manifest_dir: &str, theme_slug: &str, asset_name: &str) -> (r: Option<String>)
    ensures
        match r {
            Some(p) => preview_asset_file(manifest_dir@, theme_slug@, asset_name@) == Some(p@),
            None => preview_asset_file(manifest_dir@, theme_slug@, asset_name@) is None,
        },
{
    let allowed_theme = crate::text::str_eq(theme_slug, "nord-roast") || crate::text::str_eq(
        theme_slug,
        "volt-run",
    ) || crate::text::str_eq(theme_slug, "atelier-stay");
    let allowed_asset = crate::text::str_eq(asset_name, "hero.png") || crate::text::str_eq(
        asset_name,
        "icon.png",
    ) || crate::text::str_eq(asset_name, "logo.png") || crate::text::str_eq(
        asset_name,
        "wordmark.png",
    );
    if !allowed_theme || !allowed_asset {
        return None;
    }
    let mut out = crate::text::concat3(manifest_dir, "/../marketing/public/demo-themes/", theme_slug);
    crate::text::push_str(&mut out, "/");
    crate::text::push_str(&mut out, asset_name);
    Some(out)
}

/// The content type of a demo asset by its extension.
pub open spec fn asset_content_type(asset: Seq<char>) -> Seq<char> {
    if crate::text::ends_with(asset, ".png"@) {
        "image/png"@
    } else if crate::text::ends_with(asset, ".jpg"@) || crate::text::ends_with(asset, ".jpeg"@) {
        "image/jpeg"@
    } else {
        "application/octet-stream"@
    }
}

/// The content type of a demo asset by its extension.
pub fn content_type_for_asset(asset_name: &str) -> (r: &'static str)
    ensures
        r@ == asset_content_type(asset_name@),
{
    if crate::text::str_ends_with(asset_name, ".png") {
        "image/png"
    } else if crate::text::str_ends_with(asset_name, ".jpg") || crate::text::str_ends_with(
        asset_name,
        ".jpeg",
    ) {
        "image/jpeg"
    } else {
        "application/octet-stream"
    }
}

} // verus!
