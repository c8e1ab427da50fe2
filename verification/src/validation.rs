//! Input validation for link destinations, brand colors, agent context and
//! email addresses.

use vstd::prelude::*;
use crate::text::{
    chars_contain, chars_of, concat2, concat3, contains, ends_with, is_hex_digit, str_ends_with,
    str_eq, to_lowercase, to_owned, trim, trim_bounds, unicode_lowercase,
};
use crate::weburl::{parse_url, url_parse, HostView, ParsedUrl, ParsedUrlView, UrlHost};

verus! {

/// Longest URL (in bytes) that the validators accept.
pub const MAX_URL_LEN: usize = 2048;

/// The view of a validation outcome: `Ok(())` or the error text.
pub open spec fn outcome(r: Result<(), String>) -> Result<(), Seq<char>> {
    match r {
        Ok(()) => Ok(()),
        Err(e) => Err(e@),
    }
}

/// `Err` carrying a copy of `msg`.
pub fn fail(msg: &str) -> (r: Result<(), String>)
    ensures
        outcome(r) == Err::<(), Seq<char>>(msg@),
{
    Err(to_owned(msg))
}

// ── IP addresses ──

/// An IP address, as the validators inspect it.
pub enum IpAddress {
    /// Four octets, most significant first.
    V4([u8; 4]),
    /// The 128-bit value, most significant bit first.
    V6(u128),
}

/// `Ipv4Addr::is_private`: 10/8, 172.16/12 and 192.168/16.
pub open spec fn v4_is_private(o: Seq<u8>) -> bool {
    o[0] == 10 || (o[0] == 172 && 16 <= o[1] && o[1] <= 31) || (o[0] == 192 && o[1] == 168)
}

/// Whether an IP address lies in a private or reserved range: for IPv4 the
/// private ranges, loopback (127/8), link-local (169.254/16), broadcast,
/// unspecified, and carrier-grade NAT (100.64/10); for IPv6 loopback (`::1`)
/// and unspecified (`::`).
pub open spec fn ip_is_private(ip: IpAddress) -> bool {
    match ip {
        IpAddress::V4(a) => {
            let o = a@;
            ||| v4_is_private(o)
            ||| o[0] == 127
            ||| (o[0] == 169 && o[1] == 254)
            ||| (o[0] == 255 && o[1] == 255 && o[2] == 255 && o[3] == 255)
            ||| (o[0] == 0 && o[1] == 0 && o[2] == 0 && o[3] == 0)
            ||| (o[0] == 100 && 64 <= o[1] && o[1] <= 127)
        },
        IpAddress::V6(v) => v == 1 || v == 0,
    }
}

/// Whether `ip` is private or reserved (see [`ip_is_private`]).
pub fn is_private_ip(ip: &IpAddress) -> (r: bool)
    ensures
        r == ip_is_private(*ip),
{
    match ip {
        IpAddress::V4(o) => {
            let a = o[0];
            let b = o[1];
            let c = o[2];
            let d = o[3];
            a == 10 || (a == 172 && 16 <= b && b <= 31) || (a == 192 && b == 168) || a == 127 || (
            a == 169 && b == 254) || (a == 255 && b == 255 && c == 255 && d == 255) || (a == 0 && b
                == 0 && c == 0 && d == 0) || (a == 100 && 64 <= b && b <= 127)
        },
        IpAddress::V6(v) => *v == 1 || *v == 0,
    }
}

/// The address that `str::parse::<IpAddr>` finds in the host text of a URL
/// with an `http`/`https` scheme: the `url` crate writes an IPv4 host as four
/// dotted decimals (which parse), an IPv6 host in brackets (which do not), and
/// never gives a domain of such a URL the IPv4 form.
pub open spec fn host_ip(host: Option<HostView>) -> Option<IpAddress> {
    match host {
        Some(HostView::Ipv4(o)) => Some(IpAddress::V4([o[0], o[1], o[2], o[3]])),
        _ => None,
    }
}

/// The outcome of `check_host_not_private` on a parsed URL.
pub open spec fn host_check(p: ParsedUrlView) -> Result<(), Seq<char>> {
    match p.host_str {
        None => Err("URL must have a host"@),
        Some(h) => if h == "localhost"@ || h == "127.0.0.1"@ || h == "[::1]"@ {
            Err("URLs pointing to localhost are not allowed"@)
        } else {
            match host_ip(p.host) {
                Some(ip) => if ip_is_private(ip) {
                    Err("URLs pointing to private/reserved IP ranges are not allowed"@)
                } else {
                    Ok(())
                },
                None => Ok(()),
            }
        },
    }
}

/// Rejects URLs whose host is missing, names localhost, or is a private or
/// reserved IP address.
pub fn check_host_not_private(parsed: &ParsedUrl) -> (r: Result<(), String>)
    ensures
        outcome(r) == host_check(parsed@),
{
    let host = match &parsed.host_str {
        None => {
            return fail("URL must have a host");
        },
        Some(h) => h,
    };
    if str_eq(host.as_str(), "localhost") || str_eq(host.as_str(), "127.0.0.1") || str_eq(
        host.as_str(),
        "[::1]",
    ) {
        return fail("URLs pointing to localhost are not allowed");
    }
    match &parsed.host {
        Some(UrlHost::Ipv4(o)) => {
            let ip = IpAddress::V4([o[0], o[1], o[2], o[3]]);
            assert(o@ =~= seq![o@[0], o@[1], o@[2], o@[3]]);
            if is_private_ip(&ip) {
                return fail("URLs pointing to private/reserved IP ranges are not allowed");
            }
            Ok(())
        },
        _ => Ok(()),
    }
}

// ── URLs ──

/// The message for a URL longer than [`MAX_URL_LEN`] bytes.
pub open spec fn too_long_msg() -> Seq<char> {
    "URL exceeds maximum length of 2048"@
}

/// The outcome of `check_web_url` on a parsed URL: the lower-cased scheme
/// must be `http` or `https`, and the host must pass [`host_check`].
pub open spec fn web_url_check(p: ParsedUrlView) -> Result<(), Seq<char>> {
    let scheme = unicode_lowercase(p.scheme);
    if scheme != "http"@ && scheme != "https"@ {
        Err("URL scheme must be http or https, got '"@ + scheme + "'"@)
    } else {
        host_check(p)
    }
}

/// The outcome of `validate_web_url` on a string of `byte_len` bytes that
/// `Url::parse` turns into `parsed`.
pub open spec fn web_url_outcome(
    byte_len: nat,
    parsed: Result<ParsedUrlView, Seq<char>>,
) -> Result<(), Seq<char>> {
    if byte_len > 2048 {
        Err(too_long_msg())
    } else {
        match parsed {
            Err(e) => Err("Invalid URL: "@ + e),
            Ok(p) => web_url_check(p),
        }
    }
}

/// Scheme and host checks on an already parsed web URL.
pub fn check_web_url(parsed: &ParsedUrl) -> (r: Result<(), String>)
    ensures
        outcome(r) == web_url_check(parsed@),
{
    let scheme = to_lowercase(parsed.scheme.as_str());
    if !str_eq(scheme.as_str(), "http") && !str_eq(scheme.as_str(), "https") {
        return Err(concat3("URL scheme must be http or https, got '", scheme.as_str(), "'"));
    }
    check_host_not_private(parsed)
}

/// Validate a web-facing URL (`web_url`): at most 2048 bytes, parseable, with
/// an `http` or `https` scheme and a public host.
pub fn validate_web_url(s: &str) -> (r: Result<(), String>)
    ensures
        outcome(r) == web_url_outcome(s.len() as nat, url_parse(s@)),
{
    if s.len() > MAX_URL_LEN {
        return fail("URL exceeds maximum length of 2048");
    }
    match parse_url(s) {
        Err(e) => Err(concat2("Invalid URL: ", e.as_str())),
        Ok(p) => check_web_url(&p),
    }
}

/// Schemes that a deep link may not use.
pub open spec fn blocked_scheme(s: Seq<char>) -> bool {
    s == "javascript"@ || s == "data"@ || s == "vbscript"@ || s == "blob"@ || s == "file"@
}

/// The outcome of `check_deep_link` on a parsed URL.
pub open spec fn deep_link_check(p: ParsedUrlView) -> Result<(), Seq<char>> {
    let scheme = unicode_lowercase(p.scheme);
    if blocked_scheme(scheme) {
        Err("Scheme '"@ + scheme + "' is not allowed"@)
    } else {
        Ok(())
    }
}

/// The outcome of `validate_deep_link`.
pub open spec fn deep_link_outcome(
    byte_len: nat,
    parsed: Result<ParsedUrlView, Seq<char>>,
) -> Result<(), Seq<char>> {
    if byte_len > 2048 {
        Err(too_long_msg())
    } else {
        match parsed {
            Err(e) => Err("Invalid URL: "@ + e),
            Ok(p) => deep_link_check(p),
        }
    }
}

/// Scheme check on an already parsed deep link.
pub fn check_deep_link(parsed: &ParsedUrl) -> (r: Result<(), String>)
    ensures
        outcome(r) == deep_link_check(parsed@),
{
    let scheme = to_lowercase(parsed.scheme.as_str());
    let s = scheme.as_str();
    if str_eq(s, "javascript") || str_eq(s, "data") || str_eq(s, "vbscript") || str_eq(s, "blob")
        || str_eq(s, "file") {
        return Err(concat3("Scheme '", s, "' is not allowed"));
    }
    Ok(())
}

/// Validate a deep link URI (`ios_deep_link`, `android_deep_link`): custom
/// schemes such as `myapp://` are allowed, dangerous ones are not.
pub fn validate_deep_link(s: &str) -> (r: Result<(), String>)
    ensures
        outcome(r) == deep_link_outcome(s.len() as nat, url_parse(s@)),
{
    if s.len() > MAX_URL_LEN {
        return fail("URL exceeds maximum length of 2048");
    }
    match parse_url(s) {
        Err(e) => Err(concat2("Invalid URL: ", e.as_str())),
        Ok(p) => check_deep_link(&p),
    }
}

/// Whether `host` is one of the app-store hosts or a subdomain of one.
pub open spec fn is_store_host(host: Seq<char>) -> bool {
    ||| host == "apps.apple.com"@ || ends_with(host, ".apps.apple.com"@)
    ||| host == "itunes.apple.com"@ || ends_with(host, ".itunes.apple.com"@)
    ||| host == "play.google.com"@ || ends_with(host, ".play.google.com"@)
}

/// The outcome of `check_store_host` on a parsed URL.
pub open spec fn store_host_check(p: ParsedUrlView) -> Result<(), Seq<char>> {
    let host = match p.host_str {
        Some(h) => h,
        None => Seq::empty(),
    };
    if is_store_host(host) {
        Ok(())
    } else {
        Err("Store URL host must be an Apple or Google domain, got '"@ + host + "'"@)
    }
}

/// The outcome of `validate_store_url`.
pub open spec fn store_url_outcome(
    byte_len: nat,
    parsed: Result<ParsedUrlView, Seq<char>>,
) -> Result<(), Seq<char>> {
    match web_url_outcome(byte_len, parsed) {
        Err(e) => Err(e),
        Ok(()) => match parsed {
            Ok(p) => store_host_check(p),
            Err(e) => Err(e),
        },
    }
}

/// Host check for store URLs on an already parsed URL.
pub fn check_store_host(parsed: &ParsedUrl) -> (r: Result<(), String>)
    ensures
        outcome(r) == store_host_check(parsed@),
{
    let host = match &parsed.host_str {
        Some(h) => to_owned(h.as_str()),
        None => String::new(),
    };
    let h = host.as_str();
    if str_eq(h, "apps.apple.com") || str_ends_with(h, ".apps.apple.com") || str_eq(
        h,
        "itunes.apple.com",
    ) || str_ends_with(h, ".itunes.apple.com") || str_eq(h, "play.google.com") || str_ends_with(
        h,
        ".play.google.com",
    ) {
        Ok(())
    } else {
        Err(concat3("Store URL host must be an Apple or Google domain, got '", h, "'"))
    }
}

/// The app-store hosts that store URLs may point at.
pub open spec fn store_hosts() -> Seq<Seq<char>> {
    seq!["apps.apple.com"@, "itunes.apple.com"@, "play.google.com"@]
}

/// `host` is the `i`-th app-store host or a subdomain of it.
pub open spec fn names_store_host(host: Seq<char>, i: int) -> bool {
    host == store_hosts()[i] || ends_with(host, "."@ + store_hosts()[i])
}

/// The host of a parsed URL, empty when it has none.
pub open spec fn host_or_empty(p: ParsedUrlView) -> Seq<char> {
    match p.host_str {
        Some(h) => h,
        None => Seq::empty(),
    }
}

/// A store URL's host is accepted exactly when it is one of
/// `apps.apple.com`, `itunes.apple.com`, `play.google.com` or a subdomain of
/// one of them; any other host (or none) is refused with a message that
/// quotes it.
pub proof fn lemma_store_host_allow_list(p: ParsedUrlView)
    ensures
        forall|i: int|
            0 <= i < store_hosts().len() && #[trigger] names_store_host(host_or_empty(p), i)
                ==> store_host_check(p) == Ok::<(), Seq<char>>(()),
        (forall|i: int|
            0 <= i < store_hosts().len() ==> !#[trigger] names_store_host(host_or_empty(p), i))
            ==> store_host_check(p) == Err::<(), Seq<char>>(
            "Store URL host must be an Apple or Google domain, got '"@ + host_or_empty(p) + "'"@,
        ),
{
    reveal_strlit(".");
    reveal_strlit("apps.apple.com");
    reveal_strlit(".apps.apple.com");
    reveal_strlit("itunes.apple.com");
    reveal_strlit(".itunes.apple.com");
    reveal_strlit("play.google.com");
    reveal_strlit(".play.google.com");
    assert("."@ + "apps.apple.com"@ =~= ".apps.apple.com"@);
    assert("."@ + "itunes.apple.com"@ =~= ".itunes.apple.com"@);
    assert("."@ + "play.google.com"@ =~= ".play.google.com"@);
    let host = host_or_empty(p);
    assert(store_hosts()[0] == "apps.apple.com"@);
    assert(store_hosts()[1] == "itunes.apple.com"@);
    assert(store_hosts()[2] == "play.google.com"@);
    assert(names_store_host(host, 0) == (host == "apps.apple.com"@ || ends_with(
        host,
        ".apps.apple.com"@,
    )));
    assert(names_store_host(host, 1) == (host == "itunes.apple.com"@ || ends_with(
        host,
        ".itunes.apple.com"@,
    )));
    assert(names_store_host(host, 2) == (host == "play.google.com"@ || ends_with(
        host,
        ".play.google.com"@,
    )));
    assert forall|i: int|
        0 <= i < store_hosts().len() && #[trigger] names_store_host(host, i) implies store_host_check(
        p,
    ) == Ok::<(), Seq<char>>(()) by {
        assert(i == 0 || i == 1 || i == 2);
    }
}

/// A store URL that passes the web-URL check and whose host is an
/// app-store host (or a subdomain of one) is accepted.
pub proof fn lemma_store_url_accepts_store_hosts(
    byte_len: nat,
    parsed: Result<ParsedUrlView, Seq<char>>,
    i: int,
)
    requires
        web_url_outcome(byte_len, parsed) is Ok,
        parsed is Ok,
        parsed->Ok_0.host_str is Some,
        0 <= i < store_hosts().len(),
        names_store_host(parsed->Ok_0.host_str->0, i),
    ensures
        store_url_outcome(byte_len, parsed) == Ok::<(), Seq<char>>(()),
{
    lemma_store_host_allow_list(parsed->Ok_0);
}

/// Validate a store URL: a valid web URL whose host is an Apple or Google
/// app-store domain.
pub fn validate_store_url(s: &str) -> (r: Result<(), String>)
    ensures
        outcome(r) == store_url_outcome(s.len() as nat, url_parse(s@)),
{
    let first = validate_web_url(s);
    if first.is_err() {
        return first;
    }
    match parse_url(s) {
        Ok(p) => check_store_host(&p),
        Err(e) => {
            assert(false);
            Err(e)
        },
    }
}

// ── Brand colors ──

/// `#RGB` or `#RRGGBB`.
pub open spec fn is_hex_color(t: Seq<char>) -> bool {
    &&& (t.len() == 7 || t.len() == 4)
    &&& t[0] == '#'
    &&& forall|k: int| 1 <= k < t.len() ==> is_hex_digit(#[trigger] t[k])
}

/// The message for a malformed color.
pub open spec fn hex_color_msg() -> Seq<char> {
    "Must be a hex color (#RRGGBB or #RGB)"@
}

/// `char::is_ascii_hexdigit`.
pub fn char_is_hex_digit(c: char) -> (r: bool)
    ensures
        r == is_hex_digit(c),
{
    ('0' <= c && c <= '9') || ('a' <= c && c <= 'f') || ('A' <= c && c <= 'F')
}

/// Validate a hex color string (`#RGB` or `#RRGGBB`), ignoring surrounding
/// whitespace.
pub fn validate_hex_color(s: &str) -> (r: Result<(), String>)
    ensures
        r is Ok <==> is_hex_color(trim(s@)),
        r matches Err(e) ==> e@ == hex_color_msg(),
{
    let v = chars_of(s);
    let (a, b) = trim_bounds(&v);
    let n = b - a;
    if !((n == 7 || n == 4) && v[a] == '#') {
        return fail("Must be a hex color (#RRGGBB or #RGB)");
    }
    let mut i = a + 1;
    while i < b
        invariant
            a < b <= v.len(),
            a + 1 <= i <= b,
            v@ == s@,
            trim(s@) == v@.subrange(a as int, b as int),
            forall|k: int| a + 1 <= k < i ==> is_hex_digit(#[trigger] v@[k]),
        decreases b - i,
    {
        if !char_is_hex_digit(v[i]) {
            assert(trim(s@)[i - a] == v@[i as int]);
            return fail("Must be a hex color (#RRGGBB or #RGB)");
        }
        i = i + 1;
    }
    assert forall|k: int| 1 <= k < trim(s@).len() implies is_hex_digit(#[trigger] trim(s@)[k]) by {
        assert(trim(s@)[k] == v@[a + k]);
    }
    Ok(())
}

// ── Metadata ──

/// Largest serialized link metadata, in bytes.
pub const MAX_METADATA_BYTES: usize = 4096;

/// A `serde_json::Value`, carried opaquely.
#[verifier::external_type_specification]
#[verifier::external_body]
pub struct ExJsonValue(serde_json::Value);

/// The length in bytes of what `serde_json::to_string` writes for a JSON
/// value: a function of the value alone.
pub uninterp spec fn json_text_len(v: serde_json::Value) -> usize;

/// The length in bytes of `serde_json::to_string` of a JSON value. A
/// `Value` always serializes (its object keys are strings and its numbers
/// finite), so the error arm is never taken; the contract claims only that
/// the length is the one named by `json_text_len`.
#[verifier::external_body]
fn serialized_len(v: &serde_json::Value) -> (r: usize)
    ensures
        r == json_text_len(*v),
{
    match serde_json::to_string(v) {
        Ok(text) => text.len(),
        Err(_) => 0,
    }
}

/// The size rule on link metadata, given the length of its serialized form.
pub fn check_metadata_size(serialized_len: usize) -> (r: Result<(), String>)
    ensures
        outcome(r) == (if serialized_len > MAX_METADATA_BYTES {
            Err::<(), Seq<char>>("metadata must be under 4KB"@)
        } else {
            Ok(())
        }),
{
    if serialized_len > MAX_METADATA_BYTES {
        fail("metadata must be under 4KB")
    } else {
        Ok(())
    }
}

/// Validate link metadata: at most 4096 bytes once serialized.
pub fn validate_metadata(v: &serde_json::Value) -> (r: Result<(), String>)
    ensures
        outcome(r) == (if json_text_len(*v) > MAX_METADATA_BYTES {
            Err::<(), Seq<char>>("metadata must be under 4KB"@)
        } else {
            Ok(())
        }),
{
    check_metadata_size(serialized_len(v))
}

// ── Agent context ──

/// The phrases that mark a prompt-injection attempt.
pub open spec fn injection_pattern(i: int) -> Seq<char> {
    if i == 0 {
        "ignore previous"@
    } else if i == 1 {
        "ignore above"@
    } else if i == 2 {
        "you are"@
    } else if i == 3 {
        "system prompt"@
    } else if i == 4 {
        "disregard"@
    } else if i == 5 {
        "forget your instructions"@
    } else {
        "new instructions"@
    }
}

/// Whether the lower-cased `s` contains an injection phrase.
pub open spec fn has_injection(s: Seq<char>) -> bool {
    exists|i: int| 0 <= i < 7 && contains(unicode_lowercase(s), #[trigger] injection_pattern(i))
}

fn injection_pattern_at(i: usize) -> (p: &'static str)
    requires
        i < 7,
    ensures
        p@ == injection_pattern(i as int),
{
    if i == 0 {
        "ignore previous"
    } else if i == 1 {
        "ignore above"
    } else if i == 2 {
        "you are"
    } else if i == 3 {
        "system prompt"
    } else if i == 4 {
        "disregard"
    } else if i == 5 {
        "forget your instructions"
    } else {
        "new instructions"
    }
}

/// Whether `s`, lower-cased, contains one of the injection phrases.
pub fn contains_injection(s: &str) -> (r: bool)
    ensures
        r == has_injection(s@),
{
    let lower = to_lowercase(s);
    let l = chars_of(lower.as_str());
    let mut i: usize = 0;
    while i < 7
        invariant
            l@ == unicode_lowercase(s@),
            i <= 7,
            forall|j: int| 0 <= j < i ==> !contains(unicode_lowercase(s@), #[trigger] injection_pattern(j)),
        decreases 7 - i,
    {
        let p = chars_of(injection_pattern_at(i));
        if chars_contain(&l, &p) {
            return true;
        }
        i = i + 1;
    }
    false
}

/// The actions that an agent context may name.
pub open spec fn is_valid_action(s: Seq<char>) -> bool {
    s == "purchase"@ || s == "subscribe"@ || s == "signup"@ || s == "download"@ || s == "read"@
        || s == "book"@ || s == "open"@
}

/// The message for an unknown action.
pub open spec fn invalid_action_msg(s: Seq<char>) -> Seq<char> {
    "Invalid action '"@ + s
        + "'. Must be one of: purchase, subscribe, signup, download, read, book, open"@
}

/// Validate an agent action: one of `purchase`, `subscribe`, `signup`,
/// `download`, `read`, `book`, `open`.
pub fn validate_agent_action(s: &str) -> (r: Result<(), String>)
    ensures
        r is Ok <==> is_valid_action(s@),
        r matches Err(e) ==> e@ == invalid_action_msg(s@),
{
    if str_eq(s, "purchase") || str_eq(s, "subscribe") || str_eq(s, "signup") || str_eq(
        s,
        "download",
    ) || str_eq(s, "read") || str_eq(s, "book") || str_eq(s, "open") {
        Ok(())
    } else {
        Err(
            concat3(
                "Invalid action '",
                s,
                "'. Must be one of: purchase, subscribe, signup, download, read, book, open",
            ),
        )
    }
}

/// The outcome of a length-and-content check on agent-facing text.
pub open spec fn text_check(
    s: Seq<char>,
    byte_len: nat,
    max: nat,
    too_long: Seq<char>,
    disallowed: Seq<char>,
) -> Result<(), Seq<char>> {
    if byte_len > max {
        Err(too_long)
    } else if has_injection(s) {
        Err(disallowed)
    } else {
        Ok(())
    }
}

/// Validate a call-to-action label: at most 120 bytes, no injection phrase.
pub fn validate_cta(s: &str) -> (r: Result<(), String>)
    ensures
        outcome(r) == text_check(
            s@,
            s.len() as nat,
            120,
            "CTA must be 120 characters or fewer"@,
            "CTA contains disallowed content"@,
        ),
{
    if s.len() > 120 {
        return fail("CTA must be 120 characters or fewer");
    }
    if contains_injection(s) {
        return fail("CTA contains disallowed content");
    }
    Ok(())
}

/// Validate an agent description: at most 500 bytes, no injection phrase.
pub fn validate_agent_description(s: &str) -> (r: Result<(), String>)
    ensures
        outcome(r) == text_check(
            s@,
            s.len() as nat,
            500,
            "Description must be 500 characters or fewer"@,
            "Description contains disallowed content"@,
        ),
{
    if s.len() > 500 {
        return fail("Description must be 500 characters or fewer");
    }
    if contains_injection(s) {
        return fail("Description contains disallowed content");
    }
    Ok(())
}

} // verus!

verus! {

// ── Email addresses ──

/// Characters allowed before the `@` of an email address.
pub open spec fn is_local_char(c: char) -> bool {
    crate::text::is_ascii_alnum(c) || c == '.' || c == '_' || c == '%' || c == '+' || c == '-'
}

/// Characters allowed after the `@` of an email address.
pub open spec fn is_domain_char(c: char) -> bool {
    crate::text::is_ascii_alnum(c) || c == '.' || c == '-'
}

/// `t` splits at the `@` at position `at` into a valid local part and domain.
pub open spec fn email_split_ok(t: Seq<char>, at: int) -> bool {
    &&& 0 < at < t.len() - 1
    &&& t[at] == '@'
    &&& forall|k: int| 0 <= k < at ==> is_local_char(#[trigger] t[k])
    &&& domain_ok(t, at)
}

/// The part of `t` after the `@` at `at` is a valid domain.
pub open spec fn domain_ok(t: Seq<char>, at: int) -> bool {
    &&& forall|k: int| at < k < t.len() ==> is_domain_char(#[trigger] t[k])
    &&& t[at + 1] != '.'
    &&& t.last() != '.'
    &&& exists|k: int| at < k < t.len() && #[trigger] t[k] == '.'
    &&& forall|k: int| at < k < t.len() - 1 ==> !(#[trigger] t[k] == '.' && t[k + 1] == '.')
}

/// An email address: a non-empty local part of letters, digits and `._%+-`,
/// one `@`, and a dotted domain of letters, digits, `-` and single interior
/// dots.
pub open spec fn is_email(t: Seq<char>) -> bool {
    exists|at: int| #[trigger] email_split_ok(t, at)
}

/// Validate an email address and normalize it: surrounding whitespace is
/// removed and ASCII letters are lower-cased.
pub fn validate_email(s: &str) -> (r: Result<String, String>)
    ensures
        r is Ok <==> is_email(trim(s@)),
        r matches Ok(n) ==> n@ == crate::text::ascii_lower(trim(s@)),
        r matches Err(e) ==> e@ == "Invalid email address"@,
{
    let trimmed = crate::text::trim_str(s);
    let t = chars_of(trimmed.as_str());
    let ghost tv = trim(s@);
    // Locate the first '@'; every character before it must be a local character.
    let mut at: usize = 0;
    while at < t.len() && t[at] != '@'
        invariant
            t@ == tv,
            at <= t.len(),
            forall|k: int| 0 <= k < at ==> t@[k] != '@',
        decreases t.len() - at,
    {
        at = at + 1;
    }
    let ok = at > 0 && at < t.len() && at + 1 < t.len() && email_tail_ok(&t, at);
    if ok {
        let mut i: usize = 0;
        let mut local_ok = true;
        while i < at
            invariant
                i <= at < t.len(),
                local_ok ==> forall|k: int| 0 <= k < i ==> is_local_char(#[trigger] t@[k]),
                !local_ok ==> exists|k: int| 0 <= k < at && !is_local_char(#[trigger] t@[k]),
            decreases at - i,
        {
            if !local_char(t[i]) {
                local_ok = false;
            }
            i = i + 1;
        }
        if local_ok {
            assert(email_split_ok(t@, at as int));
            let lower = crate::text::to_ascii_lowercase(trimmed.as_str());
            return Ok(lower);
        }
        proof {
            lemma_email_first_at(t@, at as int);
        }
    } else {
        proof {
            lemma_email_first_at(t@, at as int);
        }
    }
    Err(to_owned("Invalid email address"))
}

/// Any split point of a valid address is the first `@`.
proof fn lemma_email_first_at(t: Seq<char>, first: int)
    requires
        0 <= first <= t.len(),
        forall|k: int| 0 <= k < first ==> t[k] != '@',
        first < t.len() ==> t[first] == '@',
    ensures
        forall|at: int| #[trigger] email_split_ok(t, at) ==> at == first,
{
    assert forall|at: int| #[trigger] email_split_ok(t, at) implies at == first by {
        if at < first {
            assert(t[at] != '@');
        } else if at > first {
            assert(is_local_char(t[first]));
        }
    }
}

fn local_char(c: char) -> (r: bool)
    ensures
        r == is_local_char(c),
{
    ('0' <= c && c <= '9') || ('a' <= c && c <= 'z') || ('A' <= c && c <= 'Z') || c == '.' || c
        == '_' || c == '%' || c == '+' || c == '-'
}

fn domain_char(c: char) -> (r: bool)
    ensures
        r == is_domain_char(c),
{
    ('0' <= c && c <= '9') || ('a' <= c && c <= 'z') || ('A' <= c && c <= 'Z') || c == '.' || c
        == '-'
}

/// The domain conditions of [`email_split_ok`] for the `@` at `at`.
fn email_tail_ok(t: &Vec<char>, at: usize) -> (r: bool)
    requires
        0 < at,
        at + 1 < t.len(),
        t@[at as int] == '@',
    ensures
        r == domain_ok(t@, at as int),
{
    if t[at + 1] == '.' || t[t.len() - 1] == '.' {
        return false;
    }
    let mut dot = false;
    let mut k = at + 1;
    while k < t.len()
        invariant
            at < k <= t.len(),
            at + 1 < t.len(),
            forall|j: int| at < j < k ==> is_domain_char(#[trigger] t@[j]),
            forall|j: int| at < j < k - 1 ==> !(#[trigger] t@[j] == '.' && t@[j + 1] == '.'),
            dot <==> exists|j: int| at < j < k && #[trigger] t@[j] == '.',
        decreases t.len() - k,
    {
        if !domain_char(t[k]) {
            return false;
        }
        if t[k] == '.' && k > at + 1 && t[k - 1] == '.' {
            assert(t@[k - 1] == '.' && t@[(k - 1) + 1] == '.');
            return false;
        }
        if t[k] == '.' {
            dot = true;
        }
        k = k + 1;
    }
    if !dot {
        return false;
    }
    true
}

} // verus!
