use rift::links::{
    append_query_param, auto_redirect_target, check_link_resolvable_at, choose_resolve_action,
    custom_domain_host, custom_domain_route, expiry_notice_at, explicit_redirect_target,
    flagged_page, is_valid_link_id, link_status_name, no_destination_page, pick_tenant_domain,
    wants_json, wants_redirect, web_redirect_target, CustomDomainRoute, DomainInfo, DomainRole,
    Link, LinkStatus, RedirectMode, ResolveAction, ResolveQuery, ResolveRefusal,
};
use rift::platform::Os;

fn link() -> Link {
    Link {
        link_id: "summer-sale".to_string(),
        tenant_id: [0; 12],
        ios_deep_link: None,
        android_deep_link: None,
        web_url: None,
        ios_store_url: None,
        android_store_url: None,
        macos_store_url: None,
        windows_store_url: None,
        expires_at: None,
        status: LinkStatus::Active,
        flag_reason: None,
        redirect_mode: None,
        agent_context: None,
    }
}

fn s(x: &str) -> Option<String> {
    Some(x.to_string())
}

#[test]
fn link_ids_are_short_ascii_words() {
    assert!(is_valid_link_id("summer-sale-2024"));
    assert!(is_valid_link_id(&"a".repeat(64)));
    assert!(!is_valid_link_id(&"a".repeat(65)));
    assert!(!is_valid_link_id(""));
    assert!(!is_valid_link_id("a_b"));
    assert!(!is_valid_link_id("café"));
}

#[test]
fn query_param_is_appended_and_encoded() {
    assert_eq!(
        append_query_param("https://play.google.com/store/apps/details?id=x", "referrer", "rift_link=abc"),
        "https://play.google.com/store/apps/details?id=x&referrer=rift_link%3Dabc"
    );
    assert_eq!(append_query_param("https://a.b/p", "cid", "é /"), "https://a.b/p?cid=%C3%A9%20%2F");
}

#[test]
fn explicit_targets_per_platform() {
    let mut l = link();
    l.ios_store_url = s("https://apps.apple.com/app/id1");
    l.android_store_url = s("https://play.google.com/store/apps/details?id=x");
    l.windows_store_url = s("https://apps.microsoft.com/detail/9N");
    l.web_url = s("https://example.com");
    assert_eq!(explicit_redirect_target(&l, Os::Ios, "abc"), s("https://apps.apple.com/app/id1"));
    assert_eq!(
        explicit_redirect_target(&l, Os::Android, "abc"),
        s("https://play.google.com/store/apps/details?id=x&referrer=rift_link%3Dabc")
    );
    assert_eq!(explicit_redirect_target(&l, Os::Mac, "abc"), s("https://example.com"));
    assert_eq!(
        explicit_redirect_target(&l, Os::Windows, "abc"),
        s("https://apps.microsoft.com/detail/9N?cid=abc")
    );
    assert_eq!(explicit_redirect_target(&l, Os::Other, "abc"), s("https://example.com"));
}

#[test]
fn auto_targets_keep_apple_platforms_on_the_page() {
    let mut l = link();
    l.web_url = s("https://example.com/x");
    assert_eq!(auto_redirect_target(&l, Os::Ios, "abc"), None);
    assert_eq!(auto_redirect_target(&l, Os::Mac, "abc"), s("https://example.com/x?rift_link=abc"));
    l.ios_deep_link = s("myapp://x");
    assert_eq!(auto_redirect_target(&l, Os::Mac, "abc"), None);
    assert_eq!(auto_redirect_target(&l, Os::Android, "abc"), s("https://example.com/x?rift_link=abc"));
    assert_eq!(web_redirect_target(&link(), "abc"), None);
}

#[test]
fn resolve_action_order() {
    let mut l = link();
    assert!(matches!(choose_resolve_action(&l, Os::Ios, "x", true, true, true), ResolveAction::Json));
    assert!(matches!(choose_resolve_action(&l, Os::Ios, "x", false, false, false), ResolveAction::NoDestination));
    l.web_url = s("https://example.com");
    match choose_resolve_action(&l, Os::Other, "x", false, false, false) {
        ResolveAction::WebRedirect(u) => assert_eq!(u, "https://example.com"),
        _ => panic!("expected a web redirect"),
    }
    l.ios_deep_link = s("myapp://p");
    assert!(matches!(choose_resolve_action(&l, Os::Ios, "x", false, false, false), ResolveAction::LandingPage));
    match choose_resolve_action(&l, Os::Other, "x", false, true, false) {
        ResolveAction::Redirect(u) => assert_eq!(u, "https://example.com"),
        _ => panic!("expected the explicit redirect"),
    }
    l.redirect_mode = Some(RedirectMode::Auto);
    match choose_resolve_action(&l, Os::Windows, "x", false, false, true) {
        ResolveAction::AutoRedirect(u) => assert_eq!(u, "https://example.com?rift_link=x"),
        _ => panic!("expected the auto redirect"),
    }
    assert!(matches!(choose_resolve_action(&l, Os::Windows, "x", false, false, false), ResolveAction::LandingPage));
}

#[test]
fn request_flags() {
    assert!(wants_json(Some("text/html, application/json;q=0.9")));
    assert!(!wants_json(Some("text/html")));
    assert!(!wants_json(None));
    assert!(wants_redirect(&ResolveQuery { redirect: s("1") }));
    assert!(!wants_redirect(&ResolveQuery { redirect: s("true") }));
    assert!(!wants_redirect(&ResolveQuery { redirect: None }));
}

#[test]
fn status_and_resolvability_over_time() {
    let mut l = link();
    l.expires_at = Some(1_000);
    assert_eq!(link_status_name(&l, 999), "active");
    assert_eq!(link_status_name(&l, 1_001), "expired");
    assert!(matches!(check_link_resolvable_at(&l, 1_001), Some(ResolveRefusal::Expired)));
    assert!(check_link_resolvable_at(&l, 1_000).is_none());
    l.status = LinkStatus::Disabled;
    let refusal = check_link_resolvable_at(&l, 0).unwrap();
    assert_eq!(refusal.status_code(), 410);
    assert_eq!(refusal.error_body(), Some(("Link has been removed", "link_disabled")));
    l.status = LinkStatus::Flagged;
    l.flag_reason = s("<phishing>");
    match check_link_resolvable_at(&l, 0) {
        Some(ResolveRefusal::Flagged { page }) => {
            assert!(page.contains("flagged as &lt;phishing&gt;. It has been disabled"));
            assert!(page.starts_with("<!DOCTYPE html>"));
        }
        _ => panic!("expected the warning page"),
    }
    assert!(flagged_page("x").contains("<title>Warning — Rift</title>"));
}

#[test]
fn pages_and_notices() {
    let page = no_destination_page("abc");
    assert!(page.contains("<title>Rift — abc</title>"));
    assert!(page.contains("<h1>Link: abc</h1>"));
    assert_eq!(expiry_notice_at(None, 0), "");
    assert_eq!(expiry_notice_at(Some(10), 10), "<p class=\"expiry expired\">This link has expired</p>");
    assert_eq!(expiry_notice_at(Some(86_400_000 - 1), 0), "<p class=\"expiry\">Expires today</p>");
    assert_eq!(expiry_notice_at(Some(86_400_000), 0), "<p class=\"expiry\">Expires in 1 day</p>");
    assert_eq!(expiry_notice_at(Some(3 * 86_400_000 + 5), 0), "<p class=\"expiry\">Expires in 3 days</p>");
}

fn domain(name: &str, verified: bool, primary: bool) -> DomainInfo {
    DomainInfo { domain: name.to_string(), verified, primary }
}

#[test]
fn tenant_domain_prefers_verified_primary() {
    let ds = vec![domain("a.com", false, true), domain("b.com", true, false), domain("c.com", true, true)];
    assert_eq!(pick_tenant_domain(&ds), (s("c.com"), true));
    let ds = vec![domain("a.com", false, true), domain("b.com", true, false)];
    assert_eq!(pick_tenant_domain(&ds), (s("b.com"), true));
    let ds = vec![domain("a.com", false, true)];
    assert_eq!(pick_tenant_domain(&ds), (s("a.com"), false));
    assert_eq!(pick_tenant_domain(&Vec::new()), (None, false));
}

#[test]
fn custom_domain_gates() {
    assert_eq!(custom_domain_host(Some("Go.Brand.COM"), Some("x"), "riftl.ink"), s("go.brand.com"));
    assert_eq!(custom_domain_host(None, Some("RIFTL.INK"), "riftl.ink"), None);
    assert_eq!(custom_domain_host(None, None, "riftl.ink"), None);
    assert_eq!(custom_domain_route(false, DomainRole::Primary), CustomDomainRoute::Unverified);
    assert_eq!(custom_domain_route(true, DomainRole::Alternate), CustomDomainRoute::Alternate);
    assert_eq!(custom_domain_route(true, DomainRole::Primary), CustomDomainRoute::Resolve);
}

#[test]
fn mac_explicit_redirect_is_bare_web_url() {
    let mut l = link();
    l.web_url = s("https://example.com");
    assert_eq!(explicit_redirect_target(&l, Os::Mac, "abc"), s("https://example.com"));
    assert_eq!(auto_redirect_target(&l, Os::Mac, "abc"), s("https://example.com?rift_link=abc"));
    assert_eq!(explicit_redirect_target(&l, Os::Ios, "abc"), None);
}
