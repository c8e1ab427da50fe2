use rift::platform::{
    client_ip_from_forwarded, detect_os_from_headers, detect_os_from_ua, first_forwarded_hop,
    has_user_activation, Os,
};

#[test]
fn as_str_values_are_stable() {
    assert_eq!(Os::Ios.as_str(), "ios");
    assert_eq!(Os::Android.as_str(), "android");
    assert_eq!(Os::Other.as_str(), "other");
    assert_eq!(Os::Mac.as_str(), "macos");
    assert_eq!(Os::Windows.as_str(), "windows");
}

#[test]
fn client_hint_maps_each_os() {
    for (hint, expected) in [
        ("\"macOS\"", Os::Mac),
        ("\"Windows\"", Os::Windows),
        ("\"Android\"", Os::Android),
        ("\"iOS\"", Os::Ios),
    ] {
        assert_eq!(detect_os_from_headers(Some(hint), None), expected, "hint {hint}");
    }
}

#[test]
fn client_hint_linux_or_unknown_falls_through_to_ua() {
    assert_eq!(
        detect_os_from_headers(
            Some("\"Linux\""),
            Some("Mozilla/5.0 (Windows NT 10.0; Win64; x64)")
        ),
        Os::Windows
    );
}

#[test]
fn client_hint_wins_over_ua() {
    assert_eq!(
        detect_os_from_headers(
            Some("\"Windows\""),
            Some("Mozilla/5.0 (Macintosh; Intel Mac OS X 10_15_7)")
        ),
        Os::Windows
    );
}

#[test]
fn ua_fallback_macos_safari() {
    assert_eq!(
        detect_os_from_headers(
            None,
            Some("Mozilla/5.0 (Macintosh; Intel Mac OS X 10_15_7) AppleWebKit/605 Version/17 Safari/605")
        ),
        Os::Mac
    );
}

#[test]
fn ua_fallback_windows() {
    assert_eq!(
        detect_os_from_ua("Mozilla/5.0 (Windows NT 10.0; Win64; x64)"),
        Os::Windows
    );
}

#[test]
fn ua_mobile_before_desktop() {
    assert_eq!(
        detect_os_from_ua("Mozilla/5.0 (iPhone; CPU iPhone OS 17_0 like Mac OS X)"),
        Os::Ios
    );
    assert_eq!(
        detect_os_from_ua("Mozilla/5.0 (Linux; Android 14; Pixel 8)"),
        Os::Android
    );
}

#[test]
fn ua_ipad_and_ipod() {
    assert_eq!(
        detect_os_from_ua("Mozilla/5.0 (iPad; CPU OS 17_0)"),
        Os::Ios
    );
    assert_eq!(detect_os_from_ua("Mozilla/5.0 (iPod touch)"), Os::Ios);
}

#[test]
fn ua_bot_and_unknown_are_other() {
    assert_eq!(
        detect_os_from_ua("Slackbot-LinkExpanding 1.0 (+https://api.slack.com/robots)"),
        Os::Other
    );
    assert_eq!(detect_os_from_ua("curl/8.4.0"), Os::Other);
}

#[test]
fn no_headers_is_other() {
    assert_eq!(detect_os_from_headers(None, None), Os::Other);
}

#[test]
fn forwarded_first_hop_is_the_client() {
    assert_eq!(client_ip_from_forwarded(Some(" 203.0.113.7 , 10.0.0.1")), "203.0.113.7");
    assert_eq!(client_ip_from_forwarded(Some("  ,10.0.0.1")), "local");
    assert_eq!(client_ip_from_forwarded(None), "local");
    assert_eq!(first_forwarded_hop(Some("198.51.100.2")), Some("198.51.100.2".to_string()));
    assert_eq!(first_forwarded_hop(Some("")), None);
}

#[test]
fn user_activation_needs_question_one() {
    assert!(has_user_activation(Some("?1")));
    assert!(has_user_activation(Some(" ?1 ")));
    assert!(!has_user_activation(Some("?0")));
    assert!(!has_user_activation(None));
}
