use rift::config::{resolve_cookie_domain, Config, CookieSameSite};

#[test]
fn prod_marketing_yields_riftl_ink_parent() {
    assert_eq!(
        resolve_cookie_domain(None, "https://riftl.ink"),
        Some(".riftl.ink".to_string())
    );
}

#[test]
fn sandbox_marketing_yields_sandbox_subtree_no_prod_leak() {
    assert_eq!(
        resolve_cookie_domain(None, "https://sandbox.riftl.ink"),
        Some(".sandbox.riftl.ink".to_string())
    );
}

#[test]
fn deeper_subdomain_yields_its_own_subtree() {
    assert_eq!(
        resolve_cookie_domain(None, "https://team-x.staging.riftl.ink"),
        Some(".team-x.staging.riftl.ink".to_string())
    );
}

#[test]
fn localhost_returns_none() {
    assert_eq!(resolve_cookie_domain(None, "http://localhost:3000"), None);
    assert_eq!(resolve_cookie_domain(None, "http://localhost"), None);
}

#[test]
fn ip_addresses_return_none() {
    assert_eq!(resolve_cookie_domain(None, "http://127.0.0.1:3000"), None);
    assert_eq!(resolve_cookie_domain(None, "http://192.168.1.5"), None);
    assert_eq!(resolve_cookie_domain(None, "http://[::1]:3000"), None);
}

#[test]
fn invalid_marketing_url_returns_none() {
    assert_eq!(resolve_cookie_domain(None, "not a url"), None);
    assert_eq!(resolve_cookie_domain(None, ""), None);
}

#[test]
fn override_with_leading_dot_passes_through() {
    assert_eq!(
        resolve_cookie_domain(Some(".custom.example"), "https://anything.com"),
        Some(".custom.example".to_string())
    );
}

#[test]
fn override_without_leading_dot_gets_normalised() {
    assert_eq!(
        resolve_cookie_domain(Some("custom.example"), "https://anything.com"),
        Some(".custom.example".to_string())
    );
}

#[test]
fn override_empty_or_whitespace_falls_back_to_none() {
    assert_eq!(resolve_cookie_domain(Some(""), "https://riftl.ink"), None);
    assert_eq!(
        resolve_cookie_domain(Some("   "), "https://riftl.ink"),
        None
    );
}

#[test]
fn same_site_defaults_to_lax() {
    assert_eq!(CookieSameSite::from_env_str(None), CookieSameSite::Lax);
    assert_eq!(CookieSameSite::from_env_str(Some("")), CookieSameSite::Lax);
    assert_eq!(
        CookieSameSite::from_env_str(Some("garbage")),
        CookieSameSite::Lax
    );
    assert_eq!(
        CookieSameSite::from_env_str(Some("lax")),
        CookieSameSite::Lax
    );
}

#[test]
fn same_site_parses_none_and_strict_case_insensitive() {
    assert_eq!(
        CookieSameSite::from_env_str(Some("None")),
        CookieSameSite::NoRestriction
    );
    assert_eq!(
        CookieSameSite::from_env_str(Some("NONE")),
        CookieSameSite::NoRestriction
    );
    assert_eq!(
        CookieSameSite::from_env_str(Some("Strict")),
        CookieSameSite::Strict
    );
    assert_eq!(
        CookieSameSite::from_env_str(Some("strict")),
        CookieSameSite::Strict
    );
}

#[test]
fn same_site_as_str_round_trips_into_set_cookie_form() {
    assert_eq!(CookieSameSite::Lax.as_str(), "Lax");
    assert_eq!(CookieSameSite::Strict.as_str(), "Strict");
    assert_eq!(CookieSameSite::NoRestriction.as_str(), "None");
}

#[test]
fn config_reads_variables_with_defaults() {
    let vars = vec![
        ("PORT".to_string(), "8080".to_string()),
        ("MARKETING_URL".to_string(), "https://sandbox.riftl.ink".to_string()),
    ];
    let c = Config::from_vars(&vars);
    assert_eq!(c.port, 8080);
    assert_eq!(c.bind_addr(), format!("{}:8080", c.host));
    assert_eq!(c.cookie_domain, Some(".sandbox.riftl.ink".to_string()));
}
