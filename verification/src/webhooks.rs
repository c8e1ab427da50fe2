//! Webhook subscriptions: their shapes, the checks on a new subscription,
//! and the signing secret handed out with it.

use vstd::prelude::*;
use crate::text::{to_owned, str_eq};
use crate::weburl::{parse_url, url_parse, ParsedUrl, ParsedUrlView};
use crate::public_id::hex_lower;
use crate::palette::{is_hex_char, hex_digit_value};

verus! {

/// Events a webhook can subscribe to.
#[derive(Clone, Copy, Debug, PartialEq, Eq, Structural)]
pub enum WebhookEventType {
    Click,
    Attribution,
}

/// A stored webhook; `created_at` in milliseconds since the epoch.
#[derive(Clone, Debug)]
pub struct Webhook {
    pub id: [u8; 12],
    pub tenant_id: [u8; 12],
    pub url: String,
    pub secret: String,
    pub events: Vec<WebhookEventType>,
    pub active: bool,
    pub created_at: i64,
}

/// Body of `POST /v1/webhooks`.
#[derive(Clone, Debug)]
pub struct CreateWebhookRequest {
    pub url: String,
    pub events: Vec<WebhookEventType>,
}

/// Answer to a created webhook; the only time its secret is shown.
#[derive(Clone, Debug)]
pub struct CreateWebhookResponse {
    pub id: String,
    pub url: String,
    pub events: Vec<WebhookEventType>,
    pub secret: String,
    pub created_at: String,
}

/// A webhook as listed.
#[derive(Clone, Debug)]
pub struct WebhookDetail {
    pub id: String,
    pub url: String,
    pub events: Vec<WebhookEventType>,
    pub active: bool,
    pub created_at: String,
}

/// Body of `GET /v1/webhooks`.
#[derive(Clone, Debug)]
pub struct ListWebhooksResponse {
    pub webhooks: Vec<WebhookDetail>,
}

/// Body of `PATCH /v1/webhooks/{id}`.
#[derive(Clone, Copy, Debug)]
pub struct UpdateWebhookRequest {
    pub active: bool,
}

// ── Target URL ──

/// The check on a parsed webhook URL: `https` with a host.
pub open spec fn webhook_url_check(p: ParsedUrlView) -> Result<(), Seq<char>> {
    if p.scheme != "https"@ {
        Err("Webhook URL must use HTTPS"@)
    } else if p.host_str is None {
        Err("Webhook URL must have a host"@)
    } else {
        Ok(())
    }
}

/// The outcome of validating a webhook URL that `Url::parse` reads as `parsed`.
pub open spec fn webhook_url_outcome(parsed: Result<ParsedUrlView, Seq<char>>) -> Result<(), Seq<char>> {
    match parsed {
        Err(_) => Err("Invalid URL"@),
        Ok(p) => webhook_url_check(p),
    }
}

/// The view of a check's outcome.
pub open spec fn check_view(r: Result<(), String>) -> Result<(), Seq<char>> {
    match r {
        Ok(()) => Ok(()),
        Err(e) => Err(e@),
    }
}

/// Scheme and host checks on a parsed webhook URL.
pub fn check_webhook_url(parsed: &ParsedUrl) -> (r: Result<(), String>)
    ensures
        check_view(r) == webhook_url_check(parsed@),
{
    if !str_eq(parsed.scheme.as_str(), "https") {
        return Err(to_owned("Webhook URL must use HTTPS"));
    }
    if parsed.host_str.is_none() {
        return Err(to_owned("Webhook URL must have a host"));
    }
    Ok(())
}

/// Validate a webhook target: a parseable `https` URL with a host.
pub fn validate_webhook_url(raw: &str) -> (r: Result<(), String>)
    ensures
        check_view(r) == webhook_url_outcome(url_parse(raw@)),
{
    match parse_url(raw) {
        Err(_) => Err(to_owned("Invalid URL")),
        Ok(p) => check_webhook_url(&p),
    }
}

/// Why a new webhook is refused, as `(code, message)`.
pub open spec fn create_webhook_refusal(
    events_len: nat,
    parsed: Result<ParsedUrlView, Seq<char>>,
) -> Option<(Seq<char>, Seq<char>)> {
    if events_len == 0 {
        Some(("empty_events"@, "At least one event type is required"@))
    } else {
        match webhook_url_outcome(parsed) {
            Err(e) => Some(("invalid_url"@, e)),
            Ok(()) => None,
        }
    }
}

/// The checks on a new webhook: at least one event, then a valid URL.
/// `Some((code, message))` when it is refused.
pub fn check_create_webhook(req: &CreateWebhookRequest) -> (r: Option<(String, String)>)
    ensures
        match r {
            Some((c, m)) => create_webhook_refusal(req.events@.len(), url_parse(req.url@)) == Some(
                (c@, m@),
            ),
            None => create_webhook_refusal(req.events@.len(), url_parse(req.url@)) is None,
        },
{
    if req.events.len() == 0 {
        return Some((to_owned("empty_events"), to_owned("At least one event type is required")));
    }
    match validate_webhook_url(req.url.as_str()) {
        Err(e) => Some((to_owned("invalid_url"), e)),
        Ok(()) => None,
    }
}

// ── Signing secret ──

/// Thirty-two bytes from the thread-local generator of `rand` (`rand::rng`,
/// filled with `Rng::fill`). Nothing is claimed of the bytes.
#[verifier::external_body]
fn random_bytes() -> [u8; 32] {
    let mut bytes = [0u8; 32];
    rand::Rng::fill(&mut rand::rng(), &mut bytes);
    bytes
}

/// `hex::encode`: lowercase hex, high nibble first, two digits per byte.
#[verifier::external_body]
fn hex_encode(bytes: &[u8; 32]) -> (r: String)
    ensures
        r@ == hex_lower(bytes@),
{
    hex::encode(bytes)
}

/// A fresh signing secret: 32 random bytes as 64 lowercase hex digits.
pub fn generate_secret() -> (r: String)
    ensures
        exists|b: Seq<u8>| b.len() == 32 && r@ == #[trigger] hex_lower(b),
{
    let bytes = random_bytes();
    let r = hex_encode(&bytes);
    assert(bytes@.len() == 32 && r@ == hex_lower(bytes@));
    r
}

// ── Storage ids in paths ──

/// The 12 bytes a 24-digit hex id (either case) stands for.
pub open spec fn object_id_of(s: Seq<char>) -> Option<Seq<u8>> {
    if s.len() == 24 && forall|i: int| 0 <= i < 24 ==> is_hex_char(#[trigger] s[i]) {
        Some(
            Seq::new(
                12,
                |k: int| (hex_digit_value(s[2 * k]) * 16 + hex_digit_value(s[2 * k + 1])) as u8,
            ),
        )
    } else {
        None
    }
}

fn digit(c: char) -> (d: u8)
    requires
        is_hex_char(c),
    ensures
        d == hex_digit_value(c),
        d < 16,
{
    if '0' <= c && c <= '9' {
        ((c as u32) - 48) as u8
    } else if 'a' <= c && c <= 'f' {
        ((c as u32) - 87) as u8
    } else {
        ((c as u32) - 55) as u8
    }
}

/// Read a storage id written as 24 hex digits.
pub fn parse_object_id(s: &str) -> (r: Option<[u8; 12]>)
    ensures
        match r {
            Some(b) => object_id_of(s@) == Some(b@),
            None => object_id_of(s@) is None,
        },
{
    let v = crate::text::chars_of(s);
    if v.len() != 24 {
        return None;
    }
    let mut i: usize = 0;
    while i < 24
        invariant
            i <= 24,
            v@ == s@,
            v@.len() == 24,
            forall|k: int| 0 <= k < i ==> is_hex_char(#[trigger] v@[k]),
        decreases 24 - i,
    {
        let c = v[i];
        if !(('0' <= c && c <= '9') || ('a' <= c && c <= 'f') || ('A' <= c && c <= 'F')) {
            assert(!is_hex_char(s@[i as int]));
            return None;
        }
        i = i + 1;
    }
    let mut out = [0u8; 12];
    let mut k: usize = 0;
    while k < 12
        invariant
            k <= 12,
            v@ == s@,
            v@.len() == 24,
            forall|j: int| 0 <= j < 24 ==> is_hex_char(#[trigger] v@[j]),
            forall|j: int|
                0 <= j < k ==> out@[j] == (hex_digit_value(v@[2 * j]) * 16 + hex_digit_value(
                    v@[2 * j + 1],
                )) as u8,
        decreases 12 - k,
    {
        let hi = digit(v[2 * k]);
        let lo = digit(v[2 * k + 1]);
        out.set(k, hi * 16 + lo);
        k = k + 1;
    }
    assert(out@ =~= object_id_of(s@)->0);
    Some(out)
}

/// A stored webhook as listed: the id as 24 hex digits, the creation time
/// in the RFC 3339 form the store writes it in. The secret is left out.
pub fn webhook_detail(w: Webhook, created_at: String) -> (r: WebhookDetail)
    ensures
        r.id@ == hex_lower(w.id@),
        r.url == w.url,
        r.events@ == w.events@,
        r.active == w.active,
        r.created_at == created_at,
{
    let id = crate::public_id::object_id_hex(&w.id);
    WebhookDetail { id, url: w.url, events: w.events, active: w.active, created_at }
}

/// The position of the webhook with storage id `id` in `list`, if any.
pub fn find_webhook(list: &Vec<Webhook>, id: &[u8; 12]) -> (r: Option<usize>)
    ensures
        match r {
            Some(i) => i < list@.len() && list@[i as int].id@ == id@ && forall|j: int|
                0 <= j < i ==> (#[trigger] list@[j]).id@ != id@,
            None => forall|j: int| 0 <= j < list@.len() ==> (#[trigger] list@[j]).id@ != id@,
        },
{
    let mut i: usize = 0;
    while i < list.len()
        invariant
            i <= list@.len(),
            forall|j: int| 0 <= j < i ==> (#[trigger] list@[j]).id@ != id@,
        decreases list@.len() - i,
    {
        if crate::themes::same_id(&list[i].id, id) {
            return Some(i);
        }
        i = i + 1;
    }
    None
}

} // verus!
