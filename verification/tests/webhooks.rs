use rift::webhooks::{
    check_create_webhook, find_webhook, generate_secret, parse_object_id, validate_webhook_url,
    CreateWebhookRequest, Webhook, WebhookEventType,
};

#[test]
fn webhook_url_rules() {
    assert_eq!(validate_webhook_url("https://hooks.example.com/rift"), Ok(()));
    assert_eq!(validate_webhook_url("http://hooks.example.com/rift"), Err("Webhook URL must use HTTPS".to_string()));
    assert_eq!(validate_webhook_url("not a url"), Err("Invalid URL".to_string()));
}

#[test]
fn webhook_create_checks_events_first() {
    let req = CreateWebhookRequest { url: "ftp://x".to_string(), events: vec![] };
    assert_eq!(
        check_create_webhook(&req),
        Some(("empty_events".to_string(), "At least one event type is required".to_string()))
    );
    let req = CreateWebhookRequest { url: "http://x.com".to_string(), events: vec![WebhookEventType::Click] };
    assert_eq!(
        check_create_webhook(&req),
        Some(("invalid_url".to_string(), "Webhook URL must use HTTPS".to_string()))
    );
    let req = CreateWebhookRequest { url: "https://x.com/h".to_string(), events: vec![WebhookEventType::Attribution] };
    assert_eq!(check_create_webhook(&req), None);
}

#[test]
fn webhook_secret_is_64_lower_hex_digits() {
    let a = generate_secret();
    let b = generate_secret();
    assert_eq!(a.len(), 64);
    assert!(a.chars().all(|c| c.is_ascii_digit() || ('a'..='f').contains(&c)));
    assert_ne!(a, b);
}

#[test]
fn webhook_object_ids() {
    let id = parse_object_id("0123456789abcdefABCDEF00").unwrap();
    assert_eq!(id, [0x01, 0x23, 0x45, 0x67, 0x89, 0xab, 0xcd, 0xef, 0xab, 0xcd, 0xef, 0x00]);
    assert_eq!(parse_object_id("0123456789abcdefABCDEF0"), None);
    assert_eq!(parse_object_id("0123456789abcdefABCDEF0g"), None);
}

#[test]
fn webhook_lookup_by_id() {
    let hook = |b: u8| Webhook {
        id: [b; 12],
        tenant_id: [0; 12],
        url: "https://x.com".to_string(),
        secret: String::new(),
        events: vec![WebhookEventType::Click],
        active: true,
        created_at: 0,
    };
    let list = vec![hook(1), hook(2), hook(2)];
    assert_eq!(find_webhook(&list, &[2; 12]), Some(1));
    assert_eq!(find_webhook(&list, &[3; 12]), None);
}

#[test]
fn webhook_detail_hides_secret() {
    let w = Webhook {
        id: [0xab; 12],
        tenant_id: [0; 12],
        url: "https://x.com/h".to_string(),
        secret: "s3cret".to_string(),
        events: vec![WebhookEventType::Click, WebhookEventType::Attribution],
        active: false,
        created_at: 0,
    };
    let d = rift::webhooks::webhook_detail(w, "1970-01-01T00:00:00Z".to_string());
    assert_eq!(d.id, "abababababababababababab");
    assert_eq!(d.events, vec![WebhookEventType::Click, WebhookEventType::Attribution]);
    assert!(!d.active);
}
