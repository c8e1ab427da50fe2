use rift::brand::{palettes_for_scheme, ColorScheme, CornerStyle, FontPreset, Palette};
use rift::links::{AgentContext, Link, LinkStatus};
use rift::platform::Os;
use rift::smart_landing::{
    build_agent_panel, build_json_ld, render_smart_landing_page, render_smart_landing_page_at,
    BrandTheme, LandingPageContext, SocialPreview,
};

fn link() -> Link {
    Link {
        link_id: "abc".to_string(),
        tenant_id: [0; 12],
        ios_deep_link: None,
        android_deep_link: None,
        web_url: Some("https://example.com/x".to_string()),
        ios_store_url: Some("https://apps.apple.com/app/id1".to_string()),
        android_store_url: Some("https://play.google.com/store/apps/details?id=x".to_string()),
        macos_store_url: None,
        windows_store_url: Some("https://apps.microsoft.com/detail/9abc".to_string()),
        expires_at: Some(10 * 86_400_000 + 5),
        status: LinkStatus::Active,
        flag_reason: None,
        redirect_mode: None,
        agent_context: None,
    }
}

fn palette(bg: &str) -> Palette {
    Palette {
        bg: bg.to_string(),
        surface: "#111".to_string(),
        border: "#222".to_string(),
        text: "#fafafa".to_string(),
        text_muted: "#a1a1aa".to_string(),
        accent: "#0d9488".to_string(),
        accent_bright: "#1".to_string(),
        accent_deep: "#2".to_string(),
        accent_text: "#fafafa".to_string(),
        accent_glow: "rgba(13,148,136,0.35)".to_string(),
    }
}

fn theme(panel: bool) -> BrandTheme {
    BrandTheme {
        brand_name: Some("Acme & Co".to_string()),
        theme_color: None,
        color_scheme: ColorScheme::Dark,
        font: FontPreset::System,
        corner_style: CornerStyle::Pill,
        cta_label: None,
        tagline: None,
        icon_url: None,
        show_agent_panel: panel,
        hide_powered_by: true,
    }
}

fn ctx<'a>(l: &'a Link, t: &'a BrandTheme, os: Os, preview: Option<&'a SocialPreview>) -> LandingPageContext<'a> {
    LandingPageContext {
        os,
        link: l,
        link_id: "abc",
        theme: t,
        social_preview: preview,
        metadata_preview: None,
        agent_context: None,
        link_status: "active",
        tenant_domain: Some("acme.com"),
        tenant_verified: true,
        alternate_domain: Some("go.acme.com"),
    }
}

#[test]
fn branded_page_fills_values() {
    let l = link();
    let t = theme(false);
    let p = palettes_for_scheme(ColorScheme::Dark, palette("#0b0b0b"), palette("#fff"));
    let preview = SocialPreview { title: Some("Shoes <new>".to_string()), description: None, image_url: None };
    let page = render_smart_landing_page_at(&ctx(&l, &t, Os::Android, Some(&preview)), &p, 5);
    assert!(page.starts_with("<!DOCTYPE html>"));
    assert!(page.contains("<title>Shoes &lt;new&gt; \u{2014} Rift</title>"));
    assert!(page.contains("<meta property=\"og:description\" content=\"Open in app\" />"));
    assert!(page.contains("<div class=\"split solo\">"));
    assert!(page.contains("<h1>Shoes &lt;new&gt;</h1>"));
    assert!(page.contains("<div class=\"brand\">Acme &amp; Co</div>"));
    assert!(page.contains("<a id=\"open-btn\" class=\"btn\" href=\"#\">Open in Acme &amp; Co</a>"));
    assert!(page.contains("var storeUrl = \"https:\\/\\/play.google.com\\/store\\/apps\\/details?id=x\\x26referrer=rift_link%3Dabc\";"));
    assert!(page.contains("var alternateUrl = \"https:\\/\\/go.acme.com\\/abc\";"));
    assert!(page.contains("var platform = \"android\";"));
    assert!(page.contains("<p class=\"expiry\">Expires in 10 days</p>"));
    assert!(page.contains("--radius:16px; --radius-btn:999px;"));
    assert!(page.ends_with("</html>"));
}

#[test]
fn branded_page_windows_campaign_and_panel() {
    let l = link();
    let t = theme(true);
    let p = palettes_for_scheme(ColorScheme::Dark, palette("#0b0b0b"), palette("#fff"));
    let c = ctx(&l, &t, Os::Windows, None);
    let page = render_smart_landing_page(&c, &p);
    assert!(page.contains("var storeUrl = \"https:\\/\\/apps.microsoft.com\\/detail\\/9abc?cid=abc\";"));
    assert!(page.contains("<div class=\"split\">"));
    let panel = build_agent_panel(&c);
    assert!(page.contains(&panel));
    assert!(panel.contains("<span class=\"dest-type\">Microsoft Store</span>"));
    assert!(!panel.contains("agent-footer"));
}

#[test]
fn branded_json_ld_uses_preview() {
    let l = link();
    let t = theme(true);
    let ac = AgentContext { action: Some("book".to_string()), cta: None, description: None };
    let preview = SocialPreview { title: None, description: Some("Table for two".to_string()), image_url: None };
    let mut c = ctx(&l, &t, Os::Ios, Some(&preview));
    c.agent_context = Some(&ac);
    let ld = build_json_ld(&c);
    assert!(ld.contains("\"@type\":\"ReserveAction\""));
    assert!(ld.contains("\"object\":{\"@type\":\"Product\",\"description\":\"Table for two\"}"));
}
