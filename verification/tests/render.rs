use rift::landing::EffectiveTheme;
use rift::links::{AgentContext, Link, LinkStatus};
use rift::render::{action_to_schema_type, build_agent_panel, render_smart_landing_page, LandingPageContext};

fn link() -> Link {
    Link {
        link_id: "abc".to_string(),
        tenant_id: [0; 12],
        ios_deep_link: Some("myapp://p/1".to_string()),
        android_deep_link: None,
        web_url: Some("https://example.com/p?a=1&b=2".to_string()),
        ios_store_url: Some("https://apps.apple.com/app/id1".to_string()),
        android_store_url: Some("https://play.google.com/store/apps/details?id=x".to_string()),
        macos_store_url: None,
        windows_store_url: None,
        expires_at: None,
        status: LinkStatus::Active,
        flag_reason: None,
        redirect_mode: None,
        agent_context: None,
    }
}

fn ctx<'a>(
    link: &'a Link,
    theme: &'a EffectiveTheme,
    ac: Option<&'a AgentContext>,
    platform: &'a str,
) -> LandingPageContext<'a> {
    LandingPageContext {
        platform_name: platform,
        is_android: platform == "android",
        link,
        link_id: "abc",
        theme,
        meta_title: None,
        meta_description: None,
        meta_image: None,
        agent_context: ac,
        link_status: "flagged",
        tenant_domain: Some("brand.com"),
        tenant_verified: true,
    }
}

#[test]
fn agent_panel_lists_trust_facts_and_destinations() {
    let l = link();
    let t = EffectiveTheme::default_from(Some("Acme"), None, None, None);
    let ac = AgentContext { action: Some("purchase".to_string()), cta: None, description: Some("50% <off>".to_string()) };
    let panel = build_agent_panel(&ctx(&l, &t, Some(&ac), "ios"));
    assert!(panel.starts_with("<div class=\"badge\"><svg"));
    assert!(panel.contains("stroke=\"#0d9488\""));
    assert!(panel.contains("<span class=\"trust-value\">brand.com<span class=\"check\">&#10003;</span></span>"));
    assert!(panel.contains("<span class=\"status-dot flagged\"></span>Flagged</span>"));
    assert!(panel.contains("<span class=\"trust-label\">Action</span><span class=\"trust-value\">purchase</span>"));
    assert!(!panel.contains("<span class=\"trust-label\">CTA</span>"));
    assert!(panel.contains("<div class=\"desc-block\">50% &lt;off&gt;</div>"));
    assert!(panel.contains("Provided by the owner of brand.com. Not independently verified."));
    assert!(panel.contains("<span class=\"dest-type\">Web</span><span class=\"dest-arrow\">&rarr;</span><a href=\"https://example.com/p?a=1&amp;b=2\" class=\"dest-url\">example.com/p?a=1&amp;b=2</a>"));
    assert!(panel.ends_with("structured data</p></div>"));
}

#[test]
fn landing_page_fills_every_placeholder_in_order() {
    let l = link();
    let t = EffectiveTheme::default_from(Some("Acme <Co>"), None, Some("Title"), None);
    let template = "<title>{{OG_TITLE}}</title>|{{PLATFORM_JS}}|{{STORE_URL_JS}}|{{WEB_URL_JS}}|{{RADIUS}}|{{BUTTON_CLASS}}|{{JSON_LD}}|{{PRIMARY_TEXT}}|{{SUBHEADLINE}}|{{BRAND_NAME}}";
    let page = render_smart_landing_page(&ctx(&l, &t, None, "android"), template, "#FFFFFF");
    assert_eq!(
        page,
        "<title>Acme &lt;Co&gt;</title>|android|https:\\/\\/play.google.com\\/store\\/apps\\/details?id=x\\x26referrer=rift_link%3Dabc|https:\\/\\/example.com\\/p?a=1\\x26b=2|22|btn-solid||#FFFFFF|Open the app to continue.|Acme \\x3cCo\\x3e"
    );
    let ios = render_smart_landing_page(&ctx(&l, &t, None, "ios"), "{{STORE_URL_JS}}", "");
    assert_eq!(ios, "https:\\/\\/apps.apple.com\\/app\\/id1");
}

#[test]
fn schema_action_types() {
    assert_eq!(action_to_schema_type("purchase"), "BuyAction");
    assert_eq!(action_to_schema_type("book"), "ReserveAction");
    assert_eq!(action_to_schema_type("install"), "DownloadAction");
    assert_eq!(action_to_schema_type("whatever"), "ViewAction");
}

#[test]
fn json_ld_describes_action_targets_and_provider() {
    let l = link();
    let t = EffectiveTheme::default_from(Some("Acme"), None, None, None);
    let ac = AgentContext {
        action: Some("purchase".to_string()),
        cta: Some("Buy \"now\"".to_string()),
        description: Some("</script>".to_string()),
    };
    let mut c = ctx(&l, &t, Some(&ac), "ios");
    c.meta_title = Some("Shoe");
    let ld = rift::jsonld::build_json_ld(&c);
    assert_eq!(
        ld,
        "    <script type=\"application/ld+json\">{\"@context\":\"https://schema.org\",\"@type\":\"BuyAction\",\"name\":\"Buy \\\"now\\\"\",\"description\":\"<\\/script>\",\"target\":[{\"@type\":\"EntryPoint\",\"urlTemplate\":\"myapp://p/1\",\"actionPlatform\":\"http://schema.org/IOSPlatform\"},{\"@type\":\"EntryPoint\",\"urlTemplate\":\"https://example.com/p?a=1&b=2\",\"actionPlatform\":\"http://schema.org/DesktopWebPlatform\"}],\"object\":{\"@type\":\"Product\",\"name\":\"Shoe\"},\"provider\":{\"@type\":\"Organization\",\"name\":\"brand.com\",\"additionalProperty\":[{\"@type\":\"PropertyValue\",\"name\":\"status\",\"value\":\"flagged\"},{\"@type\":\"PropertyValue\",\"name\":\"verified\",\"value\":true}]}}</script>"
    );
    let none = ctx(&l, &t, None, "ios");
    assert_eq!(rift::jsonld::build_json_ld(&none), "");
    let empty = AgentContext { action: None, cta: None, description: None };
    assert_eq!(rift::jsonld::build_json_ld(&ctx(&l, &t, Some(&empty), "ios")), "");
}

#[test]
fn landing_page_carries_json_ld_only_with_agent_hints() {
    let l = link();
    let t = EffectiveTheme::default_from(Some("Acme"), None, None, None);
    let ac = AgentContext { action: None, cta: Some("</script><b>".to_string()), description: None };
    let page = render_smart_landing_page(&ctx(&l, &t, Some(&ac), "ios"), "<head>{{JSON_LD}}</head>", "#FFFFFF");
    assert!(page.starts_with("<head>    <script type=\"application/ld+json\">{\"@context\":\"https://schema.org\",\"@type\":\"ViewAction\",\"name\":\"<\\/script><b>\""));
    assert_eq!(page.matches("</").count(), 2);
    let none = render_smart_landing_page(&ctx(&l, &t, None, "ios"), "<head>{{JSON_LD}}</head>", "#FFFFFF");
    assert_eq!(none, "<head></head>");
}
