use rift::threat::{normalize_url, parent_domain_list, parse_feed, FeedKind, ThreatSets};

#[test]
fn normalize_strips_fragment_and_trailing_slash() {
    assert_eq!(normalize_url("https://example.com/"), "https://example.com");
    assert_eq!(
        normalize_url("https://example.com/path#frag"),
        "https://example.com/path"
    );
    assert_eq!(normalize_url("HTTPS://EXAMPLE.COM"), "https://example.com");
}

#[test]
fn check_exact_url_match() {
    let mut feed = ThreatSets::new();
    feed.insert_url("https://evil.com/malware.exe".to_string());
    assert!(feed.check_url("https://evil.com/malware.exe").is_some());
    assert!(feed.check_url("https://safe.com").is_none());
}

#[test]
fn check_domain_match() {
    let mut feed = ThreatSets::new();
    feed.insert_domain("phishing-site.com".to_string());
    assert!(feed.check_url("https://phishing-site.com/login").is_some());
    assert!(feed.check_url("https://sub.phishing-site.com/fake").is_some());
    assert!(feed.check_url("https://legit-site.com/page").is_none());
}

#[test]
fn verdicts_name_the_match() {
    let mut feed = ThreatSets::new();
    feed.insert_url("https://evil.com/x".to_string());
    feed.insert_domain("phish.example".to_string());
    assert_eq!(
        feed.check_url("HTTPS://EVIL.COM/x/#top").unwrap(),
        "URL matches known malware feed: HTTPS://EVIL.COM/x/#top"
    );
    assert_eq!(
        feed.check_url("https://Phish.Example/").unwrap(),
        "Domain 'phish.example' is a known phishing domain"
    );
    assert_eq!(
        feed.check_url("https://a.b.phish.example/").unwrap(),
        "Domain 'a.b.phish.example' is a subdomain of known phishing domain 'phish.example'"
    );
    // The bare top-level label is never checked on its own.
    feed.insert_domain("example".to_string());
    assert!(feed.check_url("https://safe.example/").is_none());
}

#[test]
fn parents_stop_before_the_top_level_label() {
    assert_eq!(parent_domain_list("a.b.c.d"), vec!["b.c.d".to_string(), "c.d".to_string()]);
    assert_eq!(parent_domain_list("example.com"), Vec::<String>::new());
    assert_eq!(parent_domain_list("localhost"), Vec::<String>::new());
}

#[test]
fn feeds_skip_comments_blanks_and_duplicates() {
    let text = "# URLhaus\r\nhttps://Evil.com/a/\r\n\r\nhttps://evil.com/a\n#x\nhttp://b.org/#f";
    let urls = parse_feed(text, FeedKind::Urlhaus);
    assert_eq!(urls, vec!["https://evil.com/a".to_string(), "http://b.org".to_string()]);
    let domains = parse_feed(" Phish.com \nphish.com\n\n  \nother.net", FeedKind::PhishingDomains);
    assert_eq!(domains, vec!["phish.com".to_string(), "other.net".to_string()]);
}

#[test]
fn failed_refresh_keeps_the_old_lists() {
    let mut feed = ThreatSets::new();
    feed.insert_url("https://evil.com/a".to_string());
    feed.refresh_with(Some(Vec::new()), None);
    assert!(feed.check_url("https://evil.com/a").is_some());
    feed.refresh_with(Some(vec!["https://other.com/b".to_string()]), None);
    assert!(feed.check_url("https://evil.com/a").is_none());
    assert!(feed.check_url("https://other.com/b").is_some());
}
