use axum::http::HeaderValue;
use rift::origin::{anchored_regex, origin_matches, parse_allowed_origins, OriginMatcher};

fn exact(values: &[&str]) -> Vec<Vec<u8>> {
    values
        .iter()
        .map(|s| HeaderValue::from_str(s).unwrap().as_bytes().to_vec())
        .collect()
}

fn matcher_with(values: &[&str], regex: Option<&str>) -> OriginMatcher {
    OriginMatcher::new(exact(values), regex.map(anchored_regex))
}

fn bytes(v: &HeaderValue) -> &[u8] {
    v.as_bytes()
}

#[test]
fn origin_tests_exact_match_accepts() {
    let m = matcher_with(&["https://riftl.ink"], None);
    assert!(m.matches(bytes(&HeaderValue::from_static("https://riftl.ink"))));
}

#[test]
fn origin_tests_exact_mismatch_with_no_regex_rejects() {
    let m = matcher_with(&["https://riftl.ink"], None);
    assert!(!m.matches(bytes(&HeaderValue::from_static("https://evil.com"))));
}

#[test]
fn regex_matches_vercel_preview_per_commit() {
    let m = matcher_with(
        &[],
        Some(r"https://rift-[a-z0-9-]+-andrei-bitcoincoms-projects\.vercel\.app"),
    );
    assert!(m.matches(bytes(&HeaderValue::from_static(
        "https://rift-6wtuldt9k-andrei-bitcoincoms-projects.vercel.app"
    ))));
}

#[test]
fn regex_matches_vercel_preview_per_branch() {
    let m = matcher_with(
        &[],
        Some(r"https://rift-[a-z0-9-]+-andrei-bitcoincoms-projects\.vercel\.app"),
    );
    assert!(m.matches(bytes(&HeaderValue::from_static(
        "https://rift-git-feat-sessions-auth-phase1-andrei-bitcoincoms-projects.vercel.app"
    ))));
}

#[test]
fn anchoring_rejects_trailing_junk() {
    let m = matcher_with(&[], Some(r"https://riftl\.ink"));
    assert!(m.matches(bytes(&HeaderValue::from_static("https://riftl.ink"))));
    assert!(!m.matches(bytes(&HeaderValue::from_static("https://riftl.ink.evil.com"))));
    assert!(!m.matches(bytes(&HeaderValue::from_static(
        "https://evil.com/https://riftl.ink"
    ))));
}

#[test]
fn origin_tests_exact_takes_precedence_over_regex() {
    let m = matcher_with(&["https://riftl.ink"], Some(r"https://never\.matches"));
    assert!(m.matches(bytes(&HeaderValue::from_static("https://riftl.ink"))));
}

#[test]
fn malformed_header_rejected() {
    let m = matcher_with(&[], Some(r"https://.*"));
    let bad = HeaderValue::from_bytes(b"\xff\xfe").unwrap();
    assert!(!m.matches(bytes(&bad)));
}

#[test]
fn matches_str_round_trips_to_matches() {
    let m = matcher_with(&["https://riftl.ink"], None);
    assert!(m.matches_str("https://riftl.ink"));
    assert!(!m.matches_str("https://evil.com"));
    assert!(!m.matches_str("not a url\n"));
}

fn anchored(pattern: &str) -> String {
    anchored_regex(pattern)
}

#[test]
fn main_tests_exact_match_accepts() {
    let allowed = exact(&["https://riftl.ink"]);
    assert!(origin_matches(
        bytes(&HeaderValue::from_static("https://riftl.ink")),
        &allowed,
        None,
    ));
}

#[test]
fn main_tests_exact_mismatch_with_no_regex_rejects() {
    let allowed = exact(&["https://riftl.ink"]);
    assert!(!origin_matches(
        bytes(&HeaderValue::from_static("https://evil.com")),
        &allowed,
        None,
    ));
}

#[test]
fn regex_matches_vercel_preview() {
    let re = anchored(r"https://rift-git-[a-z0-9-]+-andrei-bitcoincoms-projects\.vercel\.app");
    let origin = HeaderValue::from_static(
        "https://rift-git-feat-sessions-auth-phase1-andrei-bitcoincoms-projects.vercel.app",
    );
    assert!(origin_matches(bytes(&origin), &[], Some(re.as_str())));
}

#[test]
fn regex_admits_team_name_impersonation_documented_limitation() {
    let re = anchored(r"https://rift-git-[a-z0-9-]+-andrei-bitcoincoms-projects\.vercel\.app");
    let attacker =
        HeaderValue::from_static("https://rift-git-x-evil-andrei-bitcoincoms-projects.vercel.app");
    assert!(
        origin_matches(bytes(&attacker), &[], Some(re.as_str())),
        "Regex matched as expected; the impersonation risk is documented, not prevented at this layer"
    );
}

#[test]
fn regex_is_fully_anchored() {
    let re = anchored(r"https://riftl\.ink");
    assert!(origin_matches(
        bytes(&HeaderValue::from_static("https://riftl.ink")),
        &[],
        Some(re.as_str())
    ));
    assert!(!origin_matches(
        bytes(&HeaderValue::from_static("https://riftl.ink.evil.com")),
        &[],
        Some(re.as_str())
    ));
    assert!(!origin_matches(
        bytes(&HeaderValue::from_static("https://evil.com/https://riftl.ink")),
        &[],
        Some(re.as_str())
    ));
}

#[test]
fn main_tests_exact_takes_precedence_over_regex() {
    let allowed = exact(&["https://riftl.ink"]);
    let re = anchored(r"https://never\.matches");
    assert!(origin_matches(
        bytes(&HeaderValue::from_static("https://riftl.ink")),
        &allowed,
        Some(re.as_str())
    ));
}

#[test]
fn rejects_malformed_origin_header() {
    let re = anchored(r"https://.*");
    let bad = HeaderValue::from_bytes(b"\xff\xfe").unwrap();
    assert!(!origin_matches(bytes(&bad), &[], Some(re.as_str())));
}

#[test]
fn allowed_origins_list_is_split_and_trimmed() {
    let list = parse_allowed_origins(" https://a.example , ,https://b.example,bad\u{7f}origin");
    assert_eq!(list, vec![b"https://a.example".to_vec(), b"https://b.example".to_vec()]);
}

#[test]
fn settings_fall_back_to_marketing_and_local_hosts() {
    let m = OriginMatcher::from_settings("", None, "https://riftl.ink");
    assert!(m.matches(b"https://riftl.ink"));
    assert!(m.matches(b"http://localhost:3000"));
    assert!(m.matches(b"http://localhost:3001"));
    assert!(!m.matches(b"https://evil.com"));
    let m = OriginMatcher::from_settings("https://x.example", Some("  "), "https://riftl.ink");
    assert!(!m.matches(b"https://riftl.ink"));
    let m = OriginMatcher::from_settings("", Some("https://(unclosed"), "https://riftl.ink");
    assert!(!m.matches(b"https://(unclosed"));
}
