//! Link resolution: which links may be resolved, where a visitor is sent, and
//! the pages served when there is nowhere to send them.
//!
//! The resolver's I/O (loading the link, recording the click, looking up the
//! tenant's domains) stays with the HTTP layer; the decisions it takes between
//! those steps are the functions here.

use vstd::prelude::*;
use crate::text::{chars_of, contains, push_str, str_contains, str_eq, to_owned, concat2, concat3};
use crate::escape::{html_escape, html_escaped, urlencoding, percent_encoded};
use crate::platform::Os;
use crate::config::opt_view;

verus! {

/// Moderation state of a link.
#[derive(Clone, Copy, Debug, PartialEq, Eq, Structural)]
pub enum LinkStatus {
    Active,
    Flagged,
    Disabled,
}

/// Whether a link may skip its landing page.
#[derive(Clone, Copy, Debug, PartialEq, Eq, Structural)]
pub enum RedirectMode {
    Off,
    Auto,
}

/// Machine-readable hints the link creator attached for agents.
#[derive(Clone, Debug)]
pub struct AgentContext {
    pub action: Option<String>,
    pub cta: Option<String>,
    pub description: Option<String>,
}

/// Per-link overrides of the landing page's theme and copy.
#[derive(Clone, Debug)]
pub struct LinkThemeOverride {
    pub theme_id: Option<String>,
    pub headline: Option<String>,
    pub subheadline: Option<String>,
    pub badge_text: Option<String>,
    pub hero_image_url: Option<String>,
    pub primary_cta_label: Option<String>,
    pub og_title: Option<String>,
    pub og_description: Option<String>,
    pub og_image_url: Option<String>,
}

/// What the resolver reads of a stored link. `expires_at` is in milliseconds
/// since the epoch.
#[derive(Clone, Debug)]
pub struct Link {
    pub link_id: String,
    pub tenant_id: [u8; 12],
    pub ios_deep_link: Option<String>,
    pub android_deep_link: Option<String>,
    pub web_url: Option<String>,
    pub ios_store_url: Option<String>,
    pub android_store_url: Option<String>,
    pub macos_store_url: Option<String>,
    pub windows_store_url: Option<String>,
    pub expires_at: Option<i64>,
    pub status: LinkStatus,
    pub flag_reason: Option<String>,
    pub redirect_mode: Option<RedirectMode>,
    pub agent_context: Option<AgentContext>,
}

/// Query of the resolve endpoints.
#[derive(Clone, Debug)]
pub struct ResolveQuery {
    pub redirect: Option<String>,
}

/// Query of the QR endpoint.
#[derive(Clone, Debug)]
pub struct QrCodeQuery {
    pub logo: Option<String>,
    pub size: Option<u32>,
    pub level: Option<String>,
    pub fg_color: Option<String>,
    pub bg_color: Option<String>,
    pub hide_logo: bool,
    pub margin: Option<u32>,
    pub include_margin: Option<bool>,
    pub dot_type: Option<String>,
    pub corner_square_type: Option<String>,
    pub corner_dot_type: Option<String>,
    pub shape: Option<String>,
    pub dot_color: Option<String>,
    pub corner_square_color: Option<String>,
    pub corner_dot_color: Option<String>,
}

// ── Link ids ──

/// A character allowed in a link id.
pub open spec fn is_link_id_char(c: char) -> bool {
    ('0' <= c && c <= '9') || ('a' <= c && c <= 'z') || ('A' <= c && c <= 'Z') || c == '-'
}

/// A well-formed link id: 1 to 64 ASCII letters, digits or `-`.
pub open spec fn is_link_id(s: Seq<char>) -> bool {
    0 < s.len() <= 64 && forall|i: int| 0 <= i < s.len() ==> is_link_id_char(#[trigger] s[i])
}

/// Whether `id` is a well-formed link id.
pub fn is_valid_link_id(id: &str) -> (r: bool)
    ensures
        r == is_link_id(id@),
{
    let v = chars_of(id);
    if v.len() == 0 || v.len() > 64 {
        return false;
    }
    let mut i: usize = 0;
    while i < v.len()
        invariant
            i <= v.len(),
            v@ == id@,
            forall|k: int| 0 <= k < i ==> is_link_id_char(#[trigger] v@[k]),
        decreases v.len() - i,
    {
        let c = v[i];
        if !(('0' <= c && c <= '9') || ('a' <= c && c <= 'z') || ('A' <= c && c <= 'Z') || c
            == '-') {
            return false;
        }
        i = i + 1;
    }
    true
}

// ── Status ──

/// The status name of a link at time `now` (milliseconds since the epoch).
pub open spec fn link_status_at(link: Link, now: i64) -> Seq<char> {
    if link.expires_at is Some && now > link.expires_at->0 {
        "expired"@
    } else {
        match link.status {
            LinkStatus::Active => "active"@,
            LinkStatus::Flagged => "flagged"@,
            LinkStatus::Disabled => "disabled"@,
        }
    }
}

/// The status a link shows at time `now`: `expired` once past its expiry,
/// else its moderation status.
pub fn link_status_name(link: &Link, now: i64) -> (r: &'static str)
    ensures
        r@ == link_status_at(*link, now),
{
    if let Some(expires_at) = link.expires_at {
        if now > expires_at {
            return "expired";
        }
    }
    match link.status {
        LinkStatus::Active => "active",
        LinkStatus::Flagged => "flagged",
        LinkStatus::Disabled => "disabled",
    }
}

/// The current time in milliseconds since the epoch (`chrono::Utc::now`).
#[verifier::external_body]
pub(crate) fn now_millis() -> i64 {
    chrono::Utc::now().timestamp_millis()
}

/// The status a link shows now.
pub fn compute_link_status(link: &Link) -> (r: &'static str)
    ensures
        exists|now: i64| r@ == link_status_at(*link, now),
        link.expires_at is None ==> r@ == link_status_at(*link, 0),
{
    let now = now_millis();
    link_status_name(link, now)
}

// ── Resolvability ──

/// Why a link is not resolved.
#[derive(Clone, Debug)]
pub enum ResolveRefusal {
    /// 410, `link_expired`.
    Expired,
    /// 200 with a warning page.
    Flagged { page: String },
    /// 410, `link_disabled`.
    Disabled,
}

impl ResolveRefusal {
    /// The HTTP status of the refusal.
    pub fn status_code(&self) -> (r: u16)
        ensures
            r == match self {
                ResolveRefusal::Flagged { .. } => 200u16,
                _ => 410u16,
            },
    {
        match self {
            ResolveRefusal::Flagged { .. } => 200,
            _ => 410,
        }
    }

    /// The JSON `error` and `code` of a refusal answered in JSON.
    pub fn error_body(&self) -> (r: Option<(&'static str, &'static str)>)
        ensures
            r == match self {
                ResolveRefusal::Expired => Some(("Link has expired", "link_expired")),
                ResolveRefusal::Disabled => Some(("Link has been removed", "link_disabled")),
                ResolveRefusal::Flagged { .. } => None::<(&'static str, &'static str)>,
            },
    {
        match self {
            ResolveRefusal::Expired => Some(("Link has expired", "link_expired")),
            ResolveRefusal::Disabled => Some(("Link has been removed", "link_disabled")),
            ResolveRefusal::Flagged { .. } => None,
        }
    }
}

/// The warning page of a flagged link.
pub open spec fn flagged_page_text(reason: Seq<char>) -> Seq<char> {
    FLAGGED_PAGE_HEAD@ + html_escaped(reason) + FLAGGED_PAGE_TAIL@
}

/// Everything of the flagged-link page before the reason.
pub const FLAGGED_PAGE_HEAD: &'static str = "<!DOCTYPE html>
<html lang=\"en\">
<head>
    <meta charset=\"UTF-8\">
    <meta name=\"viewport\" content=\"width=device-width, initial-scale=1.0\">
    <title>Warning — Rift</title>
    <style>
        * { margin: 0; padding: 0; box-sizing: border-box; }
        body { background: #0a0a0a; color: #fafafa; font-family: system-ui, sans-serif; display: flex; align-items: center; justify-content: center; min-height: 100vh; padding: 24px; }
        .container { text-align: center; max-width: 480px; }
        .icon { font-size: 48px; margin-bottom: 16px; }
        h1 { font-size: 22px; font-weight: 600; margin-bottom: 12px; color: #f59e0b; }
        p { color: #a3a3a3; font-size: 15px; line-height: 1.6; margin-bottom: 8px; }
        .reason { color: #71717a; font-size: 13px; margin-top: 16px; }
    </style>
</head>
<body>
    <div class=\"container\">
        <div class=\"icon\">&#9888;</div>
        <h1>This link has been flagged</h1>
        <p>This link has been flagged as ";

/// Everything of the flagged-link page after the reason.
pub const FLAGGED_PAGE_TAIL: &'static str = ". It has been disabled for your safety.</p>
        <p class=\"reason\">If you believe this is a mistake, contact the link owner.</p>
    </div>
</body>
</html>";

/// The warning page shown instead of a flagged link.
pub fn flagged_page(reason: &str) -> (r: String)
    ensures
        r@ == flagged_page_text(reason@),
{
    let escaped = html_escape(reason);
    concat3(FLAGGED_PAGE_HEAD, escaped.as_str(), FLAGGED_PAGE_TAIL)
}

/// The reason shown on a flagged link's page.
pub open spec fn flag_reason_text(link: Link) -> Seq<char> {
    match link.flag_reason {
        Some(r) => r@,
        None => "potentially harmful"@,
    }
}

/// The refusal, if any, for `link` at time `now`: expired links are gone,
/// flagged links get a warning page naming the reason, disabled links are gone.
pub fn check_link_resolvable_at(link: &Link, now: i64) -> (r: Option<ResolveRefusal>)
    ensures
        link.expires_at is Some && now > link.expires_at->0 ==> r matches Some(
            ResolveRefusal::Expired,
        ),
        !(link.expires_at is Some && now > link.expires_at->0) ==> match link.status {
            LinkStatus::Active => r is None,
            LinkStatus::Flagged => r matches Some(ResolveRefusal::Flagged { page }) && page@
                == flagged_page_text(flag_reason_text(*link)),
            LinkStatus::Disabled => r matches Some(ResolveRefusal::Disabled),
        },
{
    if let Some(expires_at) = link.expires_at {
        if now > expires_at {
            return Some(ResolveRefusal::Expired);
        }
    }
    match link.status {
        LinkStatus::Active => None,
        LinkStatus::Flagged => {
            let page = match &link.flag_reason {
                Some(reason) => flagged_page(reason.as_str()),
                None => flagged_page("potentially harmful"),
            };
            Some(ResolveRefusal::Flagged { page })
        },
        LinkStatus::Disabled => Some(ResolveRefusal::Disabled),
    }
}

/// The refusal, if any, for `link` now.
pub fn check_link_resolvable(link: &Link) -> (r: Option<ResolveRefusal>)
    ensures
        link.expires_at is None ==> match link.status {
            LinkStatus::Active => r is None,
            LinkStatus::Flagged => r matches Some(ResolveRefusal::Flagged { page }) && page@
                == flagged_page_text(flag_reason_text(*link)),
            LinkStatus::Disabled => r matches Some(ResolveRefusal::Disabled),
        },
        link.status == LinkStatus::Disabled ==> r matches Some(ResolveRefusal::Expired) || r matches Some(
            ResolveRefusal::Disabled,
        ),
        link.status == LinkStatus::Active ==> r is None || r matches Some(ResolveRefusal::Expired),
{
    let now = now_millis();
    check_link_resolvable_at(link, now)
}

// ── Redirect targets ──

/// `url` with `key=value` appended, `value` percent-encoded.
pub open spec fn with_query_param(url: Seq<char>, key: Seq<char>, value: Seq<char>) -> Seq<char> {
    url + (if contains(url, "?"@) {
        "&"@
    } else {
        "?"@
    }) + key + "="@ + percent_encoded(vstd::utf8::encode_utf8(value))
}

/// Append a query parameter, choosing `?` or `&` by whether the URL already
/// has a query. The value is percent-encoded.
pub fn append_query_param(url: &str, key: &str, value: &str) -> (r: String)
    ensures
        r@ == with_query_param(url@, key@, value@),
{
    let sep = if str_contains(url, "?") {
        "&"
    } else {
        "?"
    };
    let encoded = urlencoding(value);
    let mut out = concat3(url, sep, key);
    push_str(&mut out, "=");
    push_str(&mut out, encoded.as_str());
    out
}

/// `rift_link=` followed by the link id.
pub open spec fn rift_link_value(link_id: Seq<char>) -> Seq<char> {
    "rift_link="@ + link_id
}

/// An optional URL with a parameter appended.
pub open spec fn map_with_param(u: Option<Seq<char>>, key: Seq<char>, value: Seq<char>) -> Option<Seq<char>> {
    match u {
        Some(x) => Some(with_query_param(x, key, value)),
        None => None,
    }
}

/// The first of two optional values that is present.
pub open spec fn or_else<T>(a: Option<T>, b: Option<T>) -> Option<T> {
    if a is Some {
        a
    } else {
        b
    }
}

/// The web destination with `rift_link` attached.
pub open spec fn web_target(link: Link, link_id: Seq<char>) -> Option<Seq<char>> {
    map_with_param(opt_view(&link.web_url), "rift_link"@, link_id)
}

/// The destination of an explicit `?redirect=1`: the store of the visitor's
/// platform with its attribution parameter; Mac and Windows fall back to the
/// bare web URL; other platforms go to the bare web URL.
pub open spec fn explicit_target(link: Link, os: Os, link_id: Seq<char>) -> Option<Seq<char>> {
    match os {
        Os::Ios => opt_view(&link.ios_store_url),
        Os::Android => map_with_param(
            opt_view(&link.android_store_url),
            "referrer"@,
            rift_link_value(link_id),
        ),
        Os::Mac => or_else(opt_view(&link.macos_store_url), opt_view(&link.web_url)),
        Os::Windows => or_else(
            map_with_param(opt_view(&link.windows_store_url), "cid"@, link_id),
            opt_view(&link.web_url),
        ),
        Os::Other => opt_view(&link.web_url),
    }
}

/// The destination of the zero-flash auto-redirect, if the platform may skip
/// the landing page.
pub open spec fn auto_target(link: Link, os: Os, link_id: Seq<char>) -> Option<Seq<char>> {
    match os {
        Os::Ios => None,
        Os::Android => or_else(
            map_with_param(opt_view(&link.android_store_url), "referrer"@, rift_link_value(link_id)),
            web_target(link, link_id),
        ),
        Os::Windows => or_else(
            map_with_param(opt_view(&link.windows_store_url), "cid"@, link_id),
            web_target(link, link_id),
        ),
        Os::Mac => if link.macos_store_url is Some || link.ios_store_url is Some
            || link.ios_deep_link is Some {
            None
        } else {
            web_target(link, link_id)
        },
        Os::Other => web_target(link, link_id),
    }
}

fn clone_opt(o: &Option<String>) -> (r: Option<String>)
    ensures
        opt_view(&r) == opt_view(o),
{
    match o {
        Some(s) => Some(s.clone()),
        None => None,
    }
}

fn with_param_opt(u: &Option<String>, key: &str, value: &str) -> (r: Option<String>)
    ensures
        opt_view(&r) == map_with_param(opt_view(u), key@, value@),
{
    match u {
        Some(x) => Some(append_query_param(x.as_str(), key, value)),
        None => None,
    }
}

/// The web URL with `rift_link` attached, if the link has one.
pub fn web_redirect_target(link: &Link, link_id: &str) -> (r: Option<String>)
    ensures
        opt_view(&r) == web_target(*link, link_id@),
{
    with_param_opt(&link.web_url, "rift_link", link_id)
}

/// Destination for the explicit `?redirect=1` path.
pub fn explicit_redirect_target(link: &Link, os: Os, link_id: &str) -> (r: Option<String>)
    ensures
        opt_view(&r) == explicit_target(*link, os, link_id@),
{
    match os {
        Os::Ios => clone_opt(&link.ios_store_url),
        Os::Android => {
            let value = concat2("rift_link=", link_id);
            with_param_opt(&link.android_store_url, "referrer", value.as_str())
        },
        Os::Mac => {
            if link.macos_store_url.is_some() {
                clone_opt(&link.macos_store_url)
            } else {
                clone_opt(&link.web_url)
            }
        },
        Os::Windows => {
            if link.windows_store_url.is_some() {
                with_param_opt(&link.windows_store_url, "cid", link_id)
            } else {
                clone_opt(&link.web_url)
            }
        },
        Os::Other => clone_opt(&link.web_url),
    }
}

/// Destination for the zero-flash auto-redirect, or `None` when the visitor
/// must land on the page.
pub fn auto_redirect_target(link: &Link, os: Os, link_id: &str) -> (r: Option<String>)
    ensures
        opt_view(&r) == auto_target(*link, os, link_id@),
{
    match os {
        Os::Ios => None,
        Os::Android => {
            if link.android_store_url.is_some() {
                let value = concat2("rift_link=", link_id);
                with_param_opt(&link.android_store_url, "referrer", value.as_str())
            } else {
                web_redirect_target(link, link_id)
            }
        },
        Os::Windows => {
            if link.windows_store_url.is_some() {
                with_param_opt(&link.windows_store_url, "cid", link_id)
            } else {
                web_redirect_target(link, link_id)
            }
        },
        Os::Mac => {
            if link.macos_store_url.is_some() || link.ios_store_url.is_some()
                || link.ios_deep_link.is_some() {
                None
            } else {
                web_redirect_target(link, link_id)
            }
        },
        Os::Other => web_redirect_target(link, link_id),
    }
}

// ── Choosing the response ──

/// How a resolvable link is answered.
#[derive(Clone, Debug)]
pub enum ResolveAction {
    /// Structured link data for agents.
    Json,
    /// 307 to the explicit redirect target.
    Redirect(String),
    /// Zero-flash 307, marked uncacheable.
    AutoRedirect(String),
    /// The smart landing page.
    LandingPage,
    /// 307 to the bare web URL.
    WebRedirect(String),
    /// A minimal page saying the link has no destination.
    NoDestination,
}

/// Whether the link has any per-platform destination.
pub open spec fn has_platform_destination(link: Link) -> bool {
    link.ios_deep_link is Some || link.android_deep_link is Some || link.ios_store_url is Some
        || link.android_store_url is Some || link.macos_store_url is Some
        || link.windows_store_url is Some
}

/// The answer to a resolve request: JSON for agents; else `?redirect=1` goes
/// to the explicit target when there is one; else an auto-redirect link with a
/// human-activation signal goes to the auto target when there is one; else the
/// landing page when the link has platform destinations; else the web URL;
/// else the no-destination page.
pub open spec fn resolve_answer(
    link: Link,
    os: Os,
    link_id: Seq<char>,
    wants_json: bool,
    redirect: bool,
    activated: bool,
) -> ResolveAction {
    let auto = link.redirect_mode == Some(RedirectMode::Auto) && activated;
    if wants_json {
        ResolveAction::Json
    } else if redirect && explicit_target(link, os, link_id) is Some {
        ResolveAction::Redirect(arbitrary())
    } else if auto && auto_target(link, os, link_id) is Some {
        ResolveAction::AutoRedirect(arbitrary())
    } else if has_platform_destination(link) {
        ResolveAction::LandingPage
    } else if link.web_url is Some {
        ResolveAction::WebRedirect(arbitrary())
    } else {
        ResolveAction::NoDestination
    }
}

/// Same variant, and the same URL where the variant carries one.
pub open spec fn answer_matches(
    r: ResolveAction,
    link: Link,
    os: Os,
    link_id: Seq<char>,
    wants_json: bool,
    redirect: bool,
    activated: bool,
) -> bool {
    let expected = resolve_answer(link, os, link_id, wants_json, redirect, activated);
    match r {
        ResolveAction::Json => expected is Json,
        ResolveAction::Redirect(u) => expected is Redirect && Some(u@) == explicit_target(
            link,
            os,
            link_id,
        ),
        ResolveAction::AutoRedirect(u) => expected is AutoRedirect && Some(u@) == auto_target(
            link,
            os,
            link_id,
        ),
        ResolveAction::LandingPage => expected is LandingPage,
        ResolveAction::WebRedirect(u) => expected is WebRedirect && Some(u@) == opt_view(
            &link.web_url,
        ),
        ResolveAction::NoDestination => expected is NoDestination,
    }
}

/// An agent asking for JSON always gets the structured link, whatever the
/// other signals say.
pub proof fn lemma_agents_get_json(link: Link, os: Os, link_id: Seq<char>, redirect: bool, activated: bool)
    ensures
        resolve_answer(link, os, link_id, true, redirect, activated) is Json,
{
}

/// iOS visitors, and macOS visitors when the link has a Mac store listing or
/// an iOS target, are never auto-redirected: they land on the page, whose
/// button carries the clipboard hand-off for deferred attribution.
pub proof fn lemma_apple_visitors_never_auto_redirect(
    link: Link,
    os: Os,
    link_id: Seq<char>,
    wants_json: bool,
    redirect: bool,
    activated: bool,
)
    requires
        os == Os::Ios || (os == Os::Mac && (link.macos_store_url is Some || link.ios_store_url is Some
            || link.ios_deep_link is Some)),
    ensures
        !(resolve_answer(link, os, link_id, wants_json, redirect, activated) is AutoRedirect),
{
}

/// On a Mac with only a web destination, the explicit redirect goes to the
/// bare web URL while the auto-redirect adds `rift_link`; on iOS the explicit
/// redirect is the App Store listing, whatever it is.
pub proof fn lemma_mac_explicit_redirect_is_bare(link: Link, link_id: Seq<char>)
    requires
        link.macos_store_url is None,
        link.ios_store_url is None,
        link.ios_deep_link is None,
    ensures
        explicit_target(link, Os::Mac, link_id) == opt_view(&link.web_url),
        auto_target(link, Os::Mac, link_id) == match opt_view(&link.web_url) {
            Some(w) => Some(with_query_param(w, "rift_link"@, link_id)),
            None => None,
        },
        explicit_target(link, Os::Ios, link_id) == opt_view(&link.ios_store_url),
{
}

/// The zero-flash auto-redirect target on each platform: none on iOS; on
/// Android the Play Store listing with the install referrer
/// `rift_link=<id>` whenever there is one, else the web URL with
/// `rift_link`; on Windows the Microsoft Store listing with `cid=<id>`
/// whenever there is one, else the web URL with `rift_link`; on a Mac the
/// web URL with `rift_link` only when the link has no Mac store listing and
/// no iOS target; elsewhere the web URL with `rift_link`.
pub proof fn lemma_auto_redirect_targets(link: Link, link_id: Seq<char>)
    ensures
        auto_target(link, Os::Ios, link_id) is None,
        link.android_store_url matches Some(s) ==> auto_target(link, Os::Android, link_id) == Some(
            with_query_param(s@, "referrer"@, "rift_link="@ + link_id),
        ),
        link.windows_store_url matches Some(s) ==> auto_target(link, Os::Windows, link_id) == Some(
            with_query_param(s@, "cid"@, link_id),
        ),
        link.android_store_url is None ==> auto_target(link, Os::Android, link_id) == web_with_rift_link(
            link,
            link_id,
        ),
        link.windows_store_url is None ==> auto_target(link, Os::Windows, link_id) == web_with_rift_link(
            link,
            link_id,
        ),
        (link.macos_store_url is Some || link.ios_store_url is Some || link.ios_deep_link is Some)
            ==> auto_target(link, Os::Mac, link_id) is None,
        (link.macos_store_url is None && link.ios_store_url is None && link.ios_deep_link is None)
            ==> auto_target(link, Os::Mac, link_id) == web_with_rift_link(link, link_id),
        auto_target(link, Os::Other, link_id) == web_with_rift_link(link, link_id),
{
}

/// The web URL with `rift_link=<id>` appended, when the link has one.
pub open spec fn web_with_rift_link(link: Link, link_id: Seq<char>) -> Option<Seq<char>> {
    match link.web_url {
        Some(w) => Some(with_query_param(w@, "rift_link"@, link_id)),
        None => None,
    }
}

/// The explicit `?redirect=1` target on each platform: the iOS App Store
/// listing as it is; the Play Store listing with the install referrer; on a
/// Mac the Mac store listing, else the bare web URL; on Windows the
/// Microsoft Store listing with `cid`, else the bare web URL; elsewhere the
/// bare web URL.
pub proof fn lemma_explicit_redirect_targets(link: Link, link_id: Seq<char>)
    ensures
        explicit_target(link, Os::Ios, link_id) == opt_view(&link.ios_store_url),
        explicit_target(link, Os::Android, link_id) == match link.android_store_url {
            Some(s) => Some(with_query_param(s@, "referrer"@, "rift_link="@ + link_id)),
            None => None,
        },
        explicit_target(link, Os::Mac, link_id) == match link.macos_store_url {
            Some(s) => Some(s@),
            None => opt_view(&link.web_url),
        },
        explicit_target(link, Os::Windows, link_id) == match link.windows_store_url {
            Some(s) => Some(with_query_param(s@, "cid"@, link_id)),
            None => opt_view(&link.web_url),
        },
        explicit_target(link, Os::Other, link_id) == opt_view(&link.web_url),
{
}

/// Decide how to answer a resolvable link.
pub fn choose_resolve_action(
    link: &Link,
    os: Os,
    link_id: &str,
    wants_json: bool,
    redirect: bool,
    activated: bool,
) -> (r: ResolveAction)
    ensures
        answer_matches(r, *link, os, link_id@, wants_json, redirect, activated),
{
    if wants_json {
        return ResolveAction::Json;
    }
    if redirect {
        if let Some(url) = explicit_redirect_target(link, os, link_id) {
            return ResolveAction::Redirect(url);
        }
    }
    let auto = match link.redirect_mode {
        Some(RedirectMode::Auto) => true,
        _ => false,
    };
    if auto && activated {
        if let Some(url) = auto_redirect_target(link, os, link_id) {
            return ResolveAction::AutoRedirect(url);
        }
    }
    if link.ios_deep_link.is_some() || link.android_deep_link.is_some()
        || link.ios_store_url.is_some() || link.android_store_url.is_some()
        || link.macos_store_url.is_some() || link.windows_store_url.is_some() {
        return ResolveAction::LandingPage;
    }
    match &link.web_url {
        Some(url) => ResolveAction::WebRedirect(url.clone()),
        None => ResolveAction::NoDestination,
    }
}

/// Whether an `Accept` header asks for JSON.
pub fn wants_json(accept: Option<&str>) -> (r: bool)
    ensures
        r == match accept {
            Some(a) => contains(a@, "application/json"@),
            None => false,
        },
{
    match accept {
        Some(a) => str_contains(a, "application/json"),
        None => false,
    }
}

/// Whether the resolve query asks to skip the landing page (`redirect=1`).
pub fn wants_redirect(query: &ResolveQuery) -> (r: bool)
    ensures
        r == (opt_view(&query.redirect) == Some("1"@)),
{
    match &query.redirect {
        Some(v) => str_eq(v.as_str(), "1"),
        None => false,
    }
}

/// Everything of the no-destination page before the first link id.
pub const NO_DESTINATION_HEAD: &'static str = "<!DOCTYPE html>
<html lang=\"en\">
<head>
    <meta charset=\"UTF-8\">
    <meta name=\"viewport\" content=\"width=device-width, initial-scale=1.0\">
    <title>Rift — ";

/// Between the two link ids of the no-destination page.
pub const NO_DESTINATION_MIDDLE: &'static str = "</title>
    <style>
        * { margin: 0; padding: 0; box-sizing: border-box; }
        body {
            background: #0a0a0a;
            color: #fafafa;
            font-family: system-ui, -apple-system, sans-serif;
            display: flex;
            align-items: center;
            justify-content: center;
            min-height: 100vh;
            padding: 24px;
        }
        .container { text-align: center; max-width: 400px; }
        .logo { color: #0d9488; font-size: 14px; font-weight: 600; letter-spacing: 0.1em; text-transform: uppercase; margin-bottom: 24px; }
        h1 { font-size: 20px; font-weight: 500; margin-bottom: 8px; }
        p { color: #737373; font-size: 14px; }
    </style>
</head>
<body>
    <div class=\"container\">
        <div class=\"logo\">Rift</div>
        <h1>Link: ";

/// Everything of the no-destination page after the second link id.
pub const NO_DESTINATION_TAIL: &'static str = "</h1>
        <p>No destination configured for this link.</p>
    </div>
</body>
</html>";

/// The minimal page of a link with no destination at all.
pub open spec fn no_destination_text(link_id: Seq<char>) -> Seq<char> {
    NO_DESTINATION_HEAD@ + link_id + NO_DESTINATION_MIDDLE@ + link_id + NO_DESTINATION_TAIL@
}

/// The page served for a link with no destination.
pub fn no_destination_page(link_id: &str) -> (r: String)
    ensures
        r@ == no_destination_text(link_id@),
{
    let mut out = concat3(NO_DESTINATION_HEAD, link_id, NO_DESTINATION_MIDDLE);
    push_str(&mut out, link_id);
    push_str(&mut out, NO_DESTINATION_TAIL);
    out
}

/// Milliseconds in a day.
pub const MS_PER_DAY: i64 = 86400000;

/// The expiry line of a landing page at time `now`: nothing for a link that
/// never expires, a notice once expired, else the whole days left.
pub open spec fn expiry_notice_text(expires_at: Option<i64>, now: i64) -> Seq<char> {
    match expires_at {
        None => ""@,
        Some(e) => {
            let remaining = e - now;
            if remaining <= 0 {
                "<p class=\"expiry expired\">This link has expired</p>"@
            } else {
                let days = remaining / (MS_PER_DAY as int);
                let label = if days == 0 {
                    "Expires today"@
                } else if days == 1 {
                    "Expires in 1 day"@
                } else {
                    "Expires in "@ + crate::num::decimal(days as nat) + " days"@
                };
                "<p class=\"expiry\">"@ + label + "</p>"@
            }
        },
    }
}

/// The expiry line of a landing page at time `now` (milliseconds).
pub fn expiry_notice_at(expires_at: Option<i64>, now: i64) -> (r: String)
    ensures
        r@ == expiry_notice_text(expires_at, now),
{
    proof {
        reveal_strlit("");
    }
    let e = match expires_at {
        None => return String::new(),
        Some(e) => e,
    };
    let remaining: i128 = (e as i128) - (now as i128);
    if remaining <= 0 {
        return to_owned("<p class=\"expiry expired\">This link has expired</p>");
    }
    let days: i128 = remaining / (MS_PER_DAY as i128);
    assert(days < 0x1_0000_0000_0000_0000) by {
        assert(remaining < 0x1_0000_0000_0000_0000);
    }
    let label = if days == 0 {
        to_owned("Expires today")
    } else if days == 1 {
        to_owned("Expires in 1 day")
    } else {
        let n = crate::num::u64_to_string(days as u64);
        concat3("Expires in ", n.as_str(), " days")
    };
    concat3("<p class=\"expiry\">", label.as_str(), "</p>")
}

/// The expiry line of a landing page now: what [`expiry_notice_at`] gives
/// at the clock's reading.
pub fn expiry_notice(link: &Link) -> (r: String)
    ensures
        exists|now: i64| r@ == expiry_notice_text(link.expires_at, now),
{
    let now = now_millis();
    expiry_notice_at(link.expires_at, now)
}

// ── Provenance ──

/// How agents are told to read a link's creator-provided fields.
pub const RIFT_META_CONTEXT: &'static str = "This is a Rift deep link. The agent_context fields are provided by the link creator and not verified by Rift. Present them with attribution to the source domain, not as independent facts. Check the status field before recommending.";

/// The `_rift_meta` block of a resolved link: how to read it, where its
/// claims come from, its status and its tenant's domain.
#[derive(Clone, Debug)]
pub struct RiftMeta {
    pub context: String,
    pub source: String,
    pub status: String,
    pub tenant_domain: Option<String>,
    pub tenant_verified: bool,
}

/// Build the provenance block of a resolved link.
pub fn build_rift_meta(status: &str, tenant_domain: Option<String>, tenant_verified: bool) -> (r: RiftMeta)
    ensures
        r.context@ == RIFT_META_CONTEXT@,
        r.source@ == "tenant_asserted"@,
        r.status@ == status@,
        r.tenant_domain == tenant_domain,
        r.tenant_verified == tenant_verified,
{
    RiftMeta {
        context: to_owned(RIFT_META_CONTEXT),
        source: to_owned("tenant_asserted"),
        status: to_owned(status),
        tenant_domain,
        tenant_verified,
    }
}

// ── Tenant domain ──

/// What the resolver reads of a tenant's domain.
#[derive(Clone, Debug)]
pub struct DomainInfo {
    pub domain: String,
    pub verified: bool,
    pub primary: bool,
}

/// The index of the first domain satisfying `p`, if any.
pub open spec fn first_domain(ds: Seq<DomainInfo>, p: spec_fn(DomainInfo) -> bool) -> Option<int>
    decreases ds.len(),
{
    if ds.len() == 0 {
        None
    } else if p(ds[0]) {
        Some(0)
    } else {
        match first_domain(ds.drop_first(), p) {
            Some(i) => Some(i + 1),
            None => None,
        }
    }
}

/// The domain a tenant is presented under: its first verified primary
/// domain, else its first verified domain (both vouched for), else its first
/// domain unverified, else none.
pub open spec fn tenant_domain_of(ds: Seq<DomainInfo>) -> (Option<Seq<char>>, bool) {
    match first_domain(ds, |d: DomainInfo| d.verified && d.primary) {
        Some(i) => (Some(ds[i].domain@), true),
        None => match first_domain(ds, |d: DomainInfo| d.verified) {
            Some(i) => (Some(ds[i].domain@), true),
            None => if ds.len() > 0 {
                (Some(ds[0].domain@), false)
            } else {
                (None, false)
            },
        },
    }
}

proof fn lemma_first_domain(ds: Seq<DomainInfo>, p: spec_fn(DomainInfo) -> bool, i: int)
    requires
        0 <= i <= ds.len(),
        i < ds.len() ==> p(ds[i]),
        forall|k: int| 0 <= k < i ==> !p(#[trigger] ds[k]),
    ensures
        first_domain(ds, p) == (if i < ds.len() {
            Some(i)
        } else {
            None::<int>
        }),
    decreases i,
{
    if i > 0 {
        assert(!p(ds[0]));
        assert forall|k: int| 0 <= k < i - 1 implies !p(#[trigger] ds.drop_first()[k]) by {
            assert(ds.drop_first()[k] == ds[k + 1]);
        }
        lemma_first_domain(ds.drop_first(), p, i - 1);
    }
}

/// Choose the domain a tenant is presented under, and whether Rift vouches
/// for it.
pub fn pick_tenant_domain(domains: &Vec<DomainInfo>) -> (r: (Option<String>, bool))
    ensures
        (opt_view(&r.0), r.1) == tenant_domain_of(domains@),
{
    let mut i: usize = 0;
    while i < domains.len()
        invariant
            i <= domains@.len(),
            forall|k: int| 0 <= k < i ==> !(#[trigger] domains@[k]).verified || !domains@[k].primary,
        decreases domains@.len() - i,
    {
        if domains[i].verified && domains[i].primary {
            proof {
                lemma_first_domain(domains@, |d: DomainInfo| d.verified && d.primary, i as int);
            }
            return (Some(domains[i].domain.clone()), true);
        }
        i = i + 1;
    }
    proof {
        lemma_first_domain(domains@, |d: DomainInfo| d.verified && d.primary, domains@.len() as int);
    }
    let mut j: usize = 0;
    while j < domains.len()
        invariant
            j <= domains@.len(),
            first_domain(domains@, |d: DomainInfo| d.verified && d.primary) is None,
            forall|k: int| 0 <= k < j ==> !(#[trigger] domains@[k]).verified,
        decreases domains@.len() - j,
    {
        if domains[j].verified {
            proof {
                lemma_first_domain(domains@, |d: DomainInfo| d.verified, j as int);
            }
            return (Some(domains[j].domain.clone()), true);
        }
        j = j + 1;
    }
    proof {
        lemma_first_domain(domains@, |d: DomainInfo| d.verified, domains@.len() as int);
    }
    if domains.len() > 0 {
        (Some(domains[0].domain.clone()), false)
    } else {
        (None, false)
    }
}

// ── Custom domains ──

/// The host a custom-domain request is for: `X-Rift-Host`, else `Host`,
/// lower-cased; none when both are missing or it is Rift's own domain.
pub open spec fn custom_host_of(
    rift_host: Option<Seq<char>>,
    host: Option<Seq<char>>,
    primary_domain: Seq<char>,
) -> Option<Seq<char>> {
    let raw = match rift_host {
        Some(h) => Some(h),
        None => host,
    };
    match raw {
        Some(h) => if crate::text::unicode_lowercase(h) == primary_domain {
            None
        } else {
            Some(crate::text::unicode_lowercase(h))
        },
        None => None,
    }
}

/// The host a custom-domain request is for, or `None` when the request must
/// be answered "link not found".
pub fn custom_domain_host(rift_host: Option<&str>, host: Option<&str>, primary_domain: &str) -> (r: Option<String>)
    ensures
        match r {
            Some(h) => custom_host_of(
                match rift_host {
                    Some(x) => Some(x@),
                    None => None,
                },
                match host {
                    Some(x) => Some(x@),
                    None => None,
                },
                primary_domain@,
            ) == Some(h@),
            None => custom_host_of(
                match rift_host {
                    Some(x) => Some(x@),
                    None => None,
                },
                match host {
                    Some(x) => Some(x@),
                    None => None,
                },
                primary_domain@,
            ) is None,
        },
{
    let raw = match rift_host {
        Some(h) => Some(h),
        None => host,
    };
    match raw {
        Some(h) => {
            let lower = crate::text::to_lowercase(h);
            if str_eq(lower.as_str(), primary_domain) {
                None
            } else {
                Some(lower)
            }
        },
        None => None,
    }
}

/// How a custom domain serves its links.
#[derive(Clone, Copy, Debug, PartialEq, Eq, Structural)]
pub enum DomainRole {
    Primary,
    Alternate,
}

/// What a request on a known custom domain leads to.
#[derive(Clone, Copy, Debug, PartialEq, Eq, Structural)]
pub enum CustomDomainRoute {
    /// 404 "Domain not verified".
    Unverified,
    /// Redirect straight to the store: the app is not installed.
    Alternate,
    /// Resolve the link as on Rift's own domain.
    Resolve,
}

/// The route of a request on a custom domain.
pub fn custom_domain_route(verified: bool, role: DomainRole) -> (r: CustomDomainRoute)
    ensures
        r == (if !verified {
            CustomDomainRoute::Unverified
        } else if role == DomainRole::Alternate {
            CustomDomainRoute::Alternate
        } else {
            CustomDomainRoute::Resolve
        }),
{
    if !verified {
        CustomDomainRoute::Unverified
    } else if role == DomainRole::Alternate {
        CustomDomainRoute::Alternate
    } else {
        CustomDomainRoute::Resolve
    }
}

} // verus!
