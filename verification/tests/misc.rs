use rift::links::expiry_notice_at;
use rift::brand::{palettes_for_scheme, resolve_accent, ColorScheme, Palette, DEFAULT_ACCENT};
use rift::cdp::extract_path;
use rift::events::click_event;
use rift::mcp::models::webhook_url_for;
use rift::platform::Os;

#[test]
fn facilitator_paths() {
    assert_eq!(extract_path("https://api.cdp.coinbase.com/platform/v2/x402/"), "/platform/v2/x402");
    assert_eq!(extract_path("http://localhost:8080"), "");
    assert_eq!(extract_path("ftp://x/y"), "");
}

#[test]
fn click_event_names_platform() {
    let e = click_event("t", "l", Some("UA".to_string()), None, Os::Android, "2024-01-01T00:00:00Z");
    assert_eq!(e.platform, "android");
    assert_eq!(e.user_agent.as_deref(), Some("UA"));
    assert_eq!(e.referer, None);
}

#[test]
fn source_webhook_url() {
    assert_eq!(webhook_url_for("https://api.riftl.ink//", "tok"), "https://api.riftl.ink/w/tok");
}

#[test]
fn garbage_color_falls_back_to_default_accent() {
    assert_eq!(resolve_accent("not-a-color"), resolve_accent("#0d9488"));
    assert_eq!(resolve_accent("not-a-color"), resolve_accent(DEFAULT_ACCENT));
    assert_eq!(resolve_accent("not-a-color"), (13, 148, 136));
    assert_eq!(resolve_accent(" #FFF"), (255, 255, 255));
}

#[test]
fn scheme_controls_which_palettes_are_emitted() {
    let p = |bg: &str| Palette {
        bg: bg.to_string(),
        surface: String::new(),
        border: String::new(),
        text: String::new(),
        text_muted: String::new(),
        accent: String::new(),
        accent_bright: String::new(),
        accent_deep: String::new(),
        accent_text: String::new(),
        accent_glow: String::new(),
    };
    assert!(palettes_for_scheme(ColorScheme::Dark, p("d"), p("l")).prefers_light.is_none());
    let light = palettes_for_scheme(ColorScheme::Light, p("d"), p("l"));
    assert_eq!(light.root.bg, "l");
    assert!(light.prefers_light.is_none());
    let auto = palettes_for_scheme(ColorScheme::Auto, p("d"), p("l"));
    assert_eq!(auto.root.bg, "d");
    assert_eq!(auto.prefers_light.unwrap().bg, "l");
}

#[test]
fn rift_meta_block() {
    let m = rift::links::build_rift_meta("active", Some("acme.com".to_string()), true);
    assert_eq!(m.source, "tenant_asserted");
    assert_eq!(m.status, "active");
    assert_eq!(m.tenant_domain.as_deref(), Some("acme.com"));
    assert!(m.tenant_verified);
    assert!(m.context.starts_with("This is a Rift deep link."));
}

#[test]
fn expiry_lines() {
    let day: i64 = 86_400_000;
    assert_eq!(expiry_notice_at(None, 0), "");
    assert_eq!(expiry_notice_at(Some(100), 100), "<p class=\"expiry expired\">This link has expired</p>");
    assert_eq!(expiry_notice_at(Some(day - 1), 0), "<p class=\"expiry\">Expires today</p>");
    assert_eq!(expiry_notice_at(Some(day), 0), "<p class=\"expiry\">Expires in 1 day</p>");
    assert_eq!(expiry_notice_at(Some(3 * day + 7), 0), "<p class=\"expiry\">Expires in 3 days</p>");
    assert_eq!(expiry_notice_at(Some(i64::MAX), i64::MIN), "<p class=\"expiry\">Expires in 213503982334 days</p>");
}

#[test]
fn object_id_hex_digits() {
    assert_eq!(
        rift::public_id::object_id_hex(&[0x65, 0x0a, 0xff, 0, 1, 2, 3, 4, 5, 6, 7, 0x8f]),
        "650aff00010203040506078f"
    );
}

#[test]
fn decimal_round_trip() {
    for n in [0u64, 7, 3000, 65535, u64::MAX] {
        let text = rift::num::u64_to_string(n);
        assert_eq!(rift::num::parse_unsigned_str(&text, u64::MAX), Some(n));
    }
    assert_eq!(rift::num::parse_unsigned_str("65536", 65535), None);
}
