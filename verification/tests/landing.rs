use rift::landing::{
    button_class, card_surface_css, content_type_for_asset, demo_preview_theme, effective_theme,
    font_stack, preview_asset_path, shadow_css, EffectiveTheme,
};
use rift::links::LinkThemeOverride;
use rift::themes::{
    CardStyle, FontPreset, LandingTheme, RadiusPreset, ShadowPreset, ThemeCopy, ThemeLayout,
    ThemeMedia, ThemeModules, ThemePalette, ThemeSeo, ThemeShape, ThemeStatus, ThemeTokens,
    ButtonStyle,
};

fn blank_theme() -> LandingTheme {
    LandingTheme {
        id: [1; 12],
        tenant_id: [2; 12],
        name: "T".to_string(),
        slug: "t".to_string(),
        is_default: true,
        status: ThemeStatus::Active,
        tokens: ThemeTokens { palette: None, typography: None, shape: None, background: None, motion: None },
        copy: ThemeCopy {
            brand_name: None,
            tagline: None,
            default_headline: None,
            default_subheadline: None,
            primary_cta_label: None,
            secondary_cta_label: None,
            footer_text: None,
        },
        media: ThemeMedia { logo_url: None, wordmark_url: None, icon_url: None, hero_image_url: None, og_image_url: None },
        layout: ThemeLayout { template: None, alignment: None, content_width: None, agent_panel_mode: None },
        modules: ThemeModules {
            show_logo: None,
            show_icon: None,
            show_hero_image: None,
            show_trust_panel: None,
            show_agent_panel: None,
            show_footer: None,
            show_store_badges: None,
        },
        seo: ThemeSeo { default_og_title_template: None, default_og_description_template: None, twitter_card: None },
        created_at: 0,
        updated_at: 0,
    }
}

fn palette(primary: &str) -> ThemePalette {
    ThemePalette {
        primary: Some(primary.to_string()),
        secondary: None,
        accent: None,
        background: None,
        surface: None,
        surface_muted: None,
        text: None,
        text_muted: None,
        border: None,
        success: None,
        warning: None,
        danger: None,
    }
}

#[test]
fn defaults_follow_the_app_and_link_metadata() {
    let t = EffectiveTheme::default_from(Some("Acme"), Some("https://a/icon.png"), None, Some("Deals"));
    assert_eq!(t.brand_name, "Acme");
    assert_eq!(t.headline, "Open in Acme");
    assert_eq!(t.primary_cta_label.as_deref(), Some("Open Acme"));
    assert_eq!(t.og_title, "Acme");
    assert_eq!(t.og_description, "Deals");
    assert_eq!(t.subheadline.as_deref(), Some("Deals"));
    assert_eq!(t.overlay_opacity, "0.28");
    assert_eq!(t.radius_px, 22);
    let anon = EffectiveTheme::default_from(None, None, Some("Title"), None);
    assert_eq!(anon.brand_name, "App");
    assert_eq!(anon.headline, "Title");
    assert_eq!(anon.og_description, "Open in app");
}

#[test]
fn later_themes_override_earlier_ones() {
    let mut tenant = blank_theme();
    tenant.tokens.palette = Some(palette("#111111"));
    tenant.tokens.shape = Some(ThemeShape {
        radius: Some(RadiusPreset::Pill),
        button_style: Some(ButtonStyle::Outline),
        card_style: Some(CardStyle::Glass),
        shadow: Some(ShadowPreset::NoShadow),
    });
    let mut link_theme = blank_theme();
    link_theme.tokens.palette = Some(palette("#222222"));
    let t = effective_theme(Some("Acme"), None, None, None, None, Some(&tenant), None, Some(&link_theme), None);
    assert_eq!(t.primary, "#222222");
    assert_eq!(t.radius_px, 999);
    assert_eq!(t.cta_style, ButtonStyle::Outline);
    assert_eq!(t.shadow_css, "none");
    assert_eq!(t.card_surface_css, card_surface_css(CardStyle::Glass));
}

#[test]
fn blank_theme_changes_nothing() {
    let before = EffectiveTheme::default_from(Some("Acme"), None, None, None);
    let mut after = before.clone();
    after.apply_theme(&blank_theme());
    assert_eq!(after.primary, before.primary);
    assert_eq!(after.og_title, before.og_title);
    assert_eq!(after.heading_font, before.heading_font);
}

#[test]
fn seo_templates_fill_from_headline() {
    let mut theme = blank_theme();
    theme.copy.default_headline = Some("Big sale".to_string());
    theme.seo.default_og_title_template = Some("{{link.title}} | Acme".to_string());
    theme.seo.default_og_description_template = Some("About: {{link.description}}".to_string());
    let mut t = EffectiveTheme::default_from(Some("Acme"), None, None, None);
    t.apply_theme(&theme);
    assert_eq!(t.headline, "Big sale");
    assert_eq!(t.og_title, "Big sale | Acme");
    assert_eq!(t.og_description, "About: Open in app");
}

#[test]
fn link_override_wins() {
    let ov = LinkThemeOverride {
        theme_id: None,
        headline: Some("Per-link".to_string()),
        subheadline: Some("Sub".to_string()),
        badge_text: None,
        hero_image_url: None,
        primary_cta_label: None,
        og_title: None,
        og_description: Some("Explicit".to_string()),
        og_image_url: None,
    };
    let t = effective_theme(Some("Acme"), None, Some("Meta title"), None, Some("https://img"), None, None, None, Some(&ov));
    assert_eq!(t.headline, "Per-link");
    assert_eq!(t.og_title, "Per-link");
    assert_eq!(t.og_description, "Explicit");
    assert_eq!(t.subheadline.as_deref(), Some("Sub"));
    assert_eq!(t.og_image_url.as_deref(), Some("https://img"));
}

#[test]
fn demo_themes_are_the_three_known_slugs() {
    let t = demo_preview_theme("https://api.riftl.ink/", "nord-roast").unwrap();
    assert_eq!(t.brand_name, "Nord Roast");
    assert_eq!(t.icon_url.as_deref(), Some("https://api.riftl.ink/__preview/assets/nord-roast/icon.png"));
    assert_eq!(t.og_image_url, t.hero_image_url);
    assert_eq!(t.heading_font, font_stack(FontPreset::EditorialSerif));
    assert_eq!(demo_preview_theme("https://x", "volt-run").unwrap().cta_style, ButtonStyle::Outline);
    assert_eq!(demo_preview_theme("https://x", "atelier-stay").unwrap().shadow_css, shadow_css(ShadowPreset::NoShadow));
    assert!(demo_preview_theme("https://x", "other").is_none());
}

#[test]
fn preview_assets() {
    assert_eq!(
        preview_asset_path("/srv", "volt-run", "icon.png"),
        Some("/srv/../marketing/public/demo-themes/volt-run/icon.png".to_string())
    );
    assert_eq!(preview_asset_path("/srv", "volt-run", "secret.txt"), None);
    assert_eq!(preview_asset_path("/srv", "../etc", "icon.png"), None);
    assert_eq!(content_type_for_asset("hero.png"), "image/png");
    assert_eq!(content_type_for_asset("a.jpeg"), "image/jpeg");
    assert_eq!(content_type_for_asset("a.jpg"), "image/jpeg");
    assert_eq!(content_type_for_asset("a.gif"), "application/octet-stream");
    assert_eq!(button_class(ButtonStyle::Soft), "btn-soft");
}
