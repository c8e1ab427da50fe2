//! The branded landing page: a brand's accent, scheme, font and corners
//! turned into CSS variables, the link's preview and call to action on the
//! human side, and the machine-readable panel on the agent side.
//!
//! The palette is derived from the brand accent in floating point by the
//! caller; everything written into the page is here.

use vstd::prelude::*;
use crate::config::opt_view;
use crate::text::{to_owned, push_str, concat2, concat3, str_eq};
use crate::escape::{html_escape, html_escaped, js_escape, js_escaped};
use crate::links::{
    AgentContext, Link, with_query_param, append_query_param, expiry_notice_text, expiry_notice_at,
    now_millis,
};
use crate::platform::{Os, os_name};
use crate::brand::{DerivedPalettes, ColorScheme, FontPreset, CornerStyle, css_vars_text, build_css_vars};
use crate::render::{
    or_default, opt_str, has_agent_hints, verified_group_text, verified_group_html,
    creator_group_text, creator_group_html, opt_dest, dest_row, panel_footer_text,
};
use crate::jsonld::{json_ld_block, json_ld_parts, action_text, script_text};

verus! {

/// What a link shows when shared: title, description and image.
#[derive(Clone, Debug)]
pub struct SocialPreview {
    pub title: Option<String>,
    pub description: Option<String>,
    pub image_url: Option<String>,
}

/// The brand configuration the page is rendered from.
#[derive(Clone, Debug)]
pub struct BrandTheme {
    pub brand_name: Option<String>,
    /// The brand accent, `#RGB` or `#RRGGBB`.
    pub theme_color: Option<String>,
    pub color_scheme: ColorScheme,
    pub font: FontPreset,
    pub corner_style: CornerStyle,
    /// The button's label, in place of "Open in {brand}".
    pub cta_label: Option<String>,
    pub tagline: Option<String>,
    pub icon_url: Option<String>,
    /// Whether the machine-readable panel is shown beside the page.
    pub show_agent_panel: bool,
    /// Whether the panel's "Powered by Rift" footer is left out.
    pub hide_powered_by: bool,
}

/// Everything the page is rendered from. `metadata_preview` is the preview
/// read from the link's legacy metadata keys, used when the link has no
/// social preview of its own.
pub struct LandingPageContext<'a> {
    pub os: Os,
    pub link: &'a Link,
    pub link_id: &'a str,
    pub theme: &'a BrandTheme,
    pub social_preview: Option<&'a SocialPreview>,
    pub metadata_preview: Option<&'a SocialPreview>,
    pub agent_context: Option<&'a AgentContext>,
    pub link_status: &'a str,
    pub tenant_domain: Option<&'a str>,
    pub tenant_verified: bool,
    /// Another domain of the tenant, used as a cross-domain hop that makes
    /// the OS open the app.
    pub alternate_domain: Option<&'a str>,
}

// ── What the page shows ──

/// The preview in effect: the link's own, else the legacy metadata's.
pub open spec fn effective_preview(ctx: LandingPageContext) -> Option<SocialPreview> {
    match ctx.social_preview {
        Some(p) => Some(*p),
        None => match ctx.metadata_preview {
            Some(p) => Some(*p),
            None => None,
        },
    }
}

pub open spec fn preview_title(ctx: LandingPageContext) -> Option<Seq<char>> {
    match effective_preview(ctx) {
        Some(p) => opt_view(&p.title),
        None => None,
    }
}

pub open spec fn preview_description(ctx: LandingPageContext) -> Option<Seq<char>> {
    match effective_preview(ctx) {
        Some(p) => opt_view(&p.description),
        None => None,
    }
}

pub open spec fn preview_image(ctx: LandingPageContext) -> Option<Seq<char>> {
    match effective_preview(ctx) {
        Some(p) => opt_view(&p.image_url),
        None => None,
    }
}

/// The brand's name, `App` when it has none.
pub open spec fn app_name_of(ctx: LandingPageContext) -> Seq<char> {
    or_default(opt_view(&ctx.theme.brand_name), "App"@)
}

/// The shared title: the preview's, else the brand's name.
pub open spec fn og_title_of(ctx: LandingPageContext) -> Seq<char> {
    or_default(preview_title(ctx), app_name_of(ctx))
}

/// The shared description: the preview's, else "Open in app".
pub open spec fn og_description_of(ctx: LandingPageContext) -> Seq<char> {
    or_default(preview_description(ctx), "Open in app"@)
}

/// The button's label: the brand's, else "Open in {brand}".
pub open spec fn cta_label_of(ctx: LandingPageContext) -> Seq<char> {
    or_default(opt_view(&ctx.theme.cta_label), "Open in "@ + app_name_of(ctx))
}

/// The store listing for the visitor's OS, empty when there is none.
pub open spec fn store_url_of(ctx: LandingPageContext) -> Seq<char> {
    match ctx.os {
        Os::Ios => or_default(opt_view(&ctx.link.ios_store_url), Seq::empty()),
        Os::Android => or_default(opt_view(&ctx.link.android_store_url), Seq::empty()),
        Os::Mac => or_default(opt_view(&ctx.link.macos_store_url), Seq::empty()),
        Os::Windows => or_default(opt_view(&ctx.link.windows_store_url), Seq::empty()),
        Os::Other => Seq::empty(),
    }
}

/// The store listing with its attribution parameter: the Play Store's
/// install `referrer`, the Microsoft Store's campaign `cid`.
pub open spec fn attributed_store_url(ctx: LandingPageContext) -> Seq<char> {
    let s = store_url_of(ctx);
    if s.len() == 0 {
        Seq::empty()
    } else {
        match ctx.os {
            Os::Android => with_query_param(s, "referrer"@, "rift_link="@ + ctx.link_id@),
            Os::Windows => with_query_param(s, "cid"@, ctx.link_id@),
            _ => s,
        }
    }
}

/// The link on the alternate domain, empty when there is none.
pub open spec fn alternate_url_of(ctx: LandingPageContext) -> Seq<char> {
    match ctx.alternate_domain {
        Some(d) => "https://"@ + d@ + "/"@ + ctx.link_id@,
        None => Seq::empty(),
    }
}

/// The image meta tags, when a preview image is set.
pub open spec fn og_image_tag_text(ctx: LandingPageContext) -> Seq<char> {
    match preview_image(ctx) {
        Some(img) => "    <meta property=\"og:image\" content=\""@ + html_escaped(img)
            + "\" />\n    <meta name=\"twitter:image\" content=\""@ + html_escaped(img) + "\" />"@,
        None => Seq::empty(),
    }
}

/// The preview image as a hero banner.
pub open spec fn hero_text(ctx: LandingPageContext) -> Seq<char> {
    match preview_image(ctx) {
        Some(img) => "<img class=\"hero\" src=\""@ + html_escaped(img) + "\" alt=\"\" />"@,
        None => Seq::empty(),
    }
}

/// The brand's icon.
pub open spec fn icon_text(ctx: LandingPageContext) -> Seq<char> {
    match opt_view(&ctx.theme.icon_url) {
        Some(u) => "<img class=\"icon\" src=\""@ + html_escaped(u) + "\" alt=\""@ + html_escaped(
            app_name_of(ctx),
        ) + "\" />"@,
        None => Seq::empty(),
    }
}

/// The preview's title as the page heading.
pub open spec fn title_text(ctx: LandingPageContext) -> Seq<char> {
    match preview_title(ctx) {
        Some(t) => "<h1>"@ + html_escaped(t) + "</h1>"@,
        None => Seq::empty(),
    }
}

/// The subtitle: the brand's tagline, else the preview's description.
pub open spec fn desc_text(ctx: LandingPageContext) -> Seq<char> {
    let d = match opt_view(&ctx.theme.tagline) {
        Some(t) => Some(t),
        None => preview_description(ctx),
    };
    match d {
        Some(t) => "<p class=\"subtitle\">"@ + html_escaped(t) + "</p>"@,
        None => Seq::empty(),
    }
}

/// The meta description: the creator's description for agents, else the
/// preview's.
pub open spec fn meta_desc_tag_text(ctx: LandingPageContext) -> Seq<char> {
    let agent = match ctx.agent_context {
        Some(a) => opt_view(&a.description),
        None => None,
    };
    let d = match agent {
        Some(t) => Some(t),
        None => preview_description(ctx),
    };
    match d {
        Some(t) => "    <meta name=\"description\" content=\""@ + html_escaped(t) + "\" />"@,
        None => Seq::empty(),
    }
}

/// The layout: split in two with the panel, else the page alone.
pub open spec fn layout_class_text(ctx: LandingPageContext) -> Seq<char> {
    if ctx.theme.show_agent_panel {
        "split"@
    } else {
        "split solo"@
    }
}

/// The schema.org action type of a creator's action word on this page.
pub open spec fn brand_schema_type(action: Seq<char>) -> Seq<char> {
    if action == "purchase"@ {
        "BuyAction"@
    } else if action == "subscribe"@ {
        "SubscribeAction"@
    } else if action == "signup"@ {
        "RegisterAction"@
    } else if action == "download"@ {
        "DownloadAction"@
    } else if action == "read"@ {
        "ReadAction"@
    } else if action == "book"@ {
        "ReserveAction"@
    } else {
        "ViewAction"@
    }
}

/// The schema.org action type of a creator's action word on this page.
pub fn action_to_schema_type(action: &str) -> (r: &'static str)
    ensures
        r@ == brand_schema_type(action@),
{
    if str_eq(action, "purchase") {
        "BuyAction"
    } else if str_eq(action, "subscribe") {
        "SubscribeAction"
    } else if str_eq(action, "signup") {
        "RegisterAction"
    } else if str_eq(action, "download") {
        "DownloadAction"
    } else if str_eq(action, "read") {
        "ReadAction"
    } else if str_eq(action, "book") {
        "ReserveAction"
    } else {
        "ViewAction"
    }
}

/// The agent context as a value.
pub open spec fn ac_of(ctx: LandingPageContext) -> Option<AgentContext> {
    match ctx.agent_context {
        Some(a) => Some(*a),
        None => None,
    }
}

/// The page's JSON-LD block, about the previewed title and description.
pub open spec fn smart_json_ld_text(ctx: LandingPageContext) -> Seq<char> {
    if has_agent_hints(ac_of(ctx)) {
        let ac = ac_of(ctx)->0;
        script_text(
            action_text(
                json_ld_parts(
                    match opt_view(&ac.action) {
                        Some(a) => brand_schema_type(a),
                        None => "ViewAction"@,
                    },
                    ac,
                    *ctx.link,
                    preview_title(ctx),
                    preview_description(ctx),
                    ctx.link_status@,
                    opt_str(ctx.tenant_domain),
                    ctx.tenant_verified,
                ),
            ),
        )
    } else {
        Seq::empty()
    }
}

/// Build the page's JSON-LD block.
pub fn build_json_ld(ctx: &LandingPageContext) -> (r: String)
    ensures
        r@ == smart_json_ld_text(*ctx),
{
    let ac = match ctx.agent_context {
        Some(a) => a,
        None => return String::new(),
    };
    if ac.action.is_none() && ac.cta.is_none() && ac.description.is_none() {
        return String::new();
    }
    let action_type = match &ac.action {
        Some(a) => action_to_schema_type(a.as_str()),
        None => "ViewAction",
    };
    let (title, description) = preview_texts(ctx);
    json_ld_block(
        action_type,
        ac,
        ctx.link,
        title,
        description,
        ctx.link_status,
        ctx.tenant_domain,
        ctx.tenant_verified,
    )
}

fn preview_of<'a>(ctx: &LandingPageContext<'a>) -> (r: Option<&'a SocialPreview>)
    ensures
        match r {
            Some(p) => effective_preview(*ctx) == Some(*p),
            None => effective_preview(*ctx) is None,
        },
{
    match ctx.social_preview {
        Some(p) => Some(p),
        None => ctx.metadata_preview,
    }
}

fn opt_as_str<'a>(o: &'a Option<String>) -> (r: Option<&'a str>)
    ensures
        opt_str(r) == opt_view(o),
{
    match o {
        Some(s) => Some(s.as_str()),
        None => None,
    }
}

fn preview_texts<'a>(ctx: &LandingPageContext<'a>) -> (r: (Option<&'a str>, Option<&'a str>))
    ensures
        opt_str(r.0) == preview_title(*ctx),
        opt_str(r.1) == preview_description(*ctx),
{
    match preview_of(ctx) {
        Some(p) => (opt_as_str(&p.title), opt_as_str(&p.description)),
        None => (None, None),
    }
}

// ── The agent panel ──

/// The panel's badge, its icon drawn in the accent through `currentColor`.
pub const SMART_BADGE: &'static str = "<div class=\"badge\"><svg width=\"16\" height=\"16\" viewBox=\"0 0 16 16\" fill=\"none\"><rect x=\"3\" y=\"4\" width=\"10\" height=\"8\" rx=\"2\" stroke=\"currentColor\" stroke-width=\"1.4\"/><circle cx=\"6.25\" cy=\"8\" r=\"1\" fill=\"currentColor\"/><circle cx=\"9.75\" cy=\"8\" r=\"1\" fill=\"currentColor\"/><line x1=\"5\" y1=\"3\" x2=\"5\" y2=\"4.5\" stroke=\"currentColor\" stroke-width=\"1.2\" stroke-linecap=\"round\"/><line x1=\"11\" y1=\"3\" x2=\"11\" y2=\"4.5\" stroke=\"currentColor\" stroke-width=\"1.2\" stroke-linecap=\"round\"/></svg>Machine-Readable Link</div>";

/// Whether any destination is listed.
pub open spec fn has_any_destination(link: Link) -> bool {
    link.ios_deep_link is Some || link.android_deep_link is Some || link.web_url is Some
        || link.ios_store_url is Some || link.android_store_url is Some
        || link.macos_store_url is Some || link.windows_store_url is Some
}

/// The destinations section: deep links, web, then the four stores.
pub open spec fn all_destinations_text(link: Link) -> Seq<char> {
    if has_any_destination(link) {
        "<div class=\"dest-section\"><div class=\"dest-header\">Destinations</div>"@ + opt_dest(
            "iOS"@,
            opt_view(&link.ios_deep_link),
        ) + opt_dest("Android"@, opt_view(&link.android_deep_link)) + opt_dest(
            "Web"@,
            opt_view(&link.web_url),
        ) + opt_dest("App Store"@, opt_view(&link.ios_store_url)) + opt_dest(
            "Play Store"@,
            opt_view(&link.android_store_url),
        ) + opt_dest("Mac App Store"@, opt_view(&link.macos_store_url)) + opt_dest(
            "Microsoft Store"@,
            opt_view(&link.windows_store_url),
        ) + "</div>"@
    } else {
        Seq::empty()
    }
}

fn all_destinations_html(link: &Link) -> (r: String)
    ensures
        r@ == all_destinations_text(*link),
{
    if !(link.ios_deep_link.is_some() || link.android_deep_link.is_some() || link.web_url.is_some()
        || link.ios_store_url.is_some() || link.android_store_url.is_some()
        || link.macos_store_url.is_some() || link.windows_store_url.is_some()) {
        return String::new();
    }
    let mut out = to_owned(
        "<div class=\"dest-section\"><div class=\"dest-header\">Destinations</div>",
    );
    dest_row(&mut out, "iOS", &link.ios_deep_link);
    dest_row(&mut out, "Android", &link.android_deep_link);
    dest_row(&mut out, "Web", &link.web_url);
    dest_row(&mut out, "App Store", &link.ios_store_url);
    dest_row(&mut out, "Play Store", &link.android_store_url);
    dest_row(&mut out, "Mac App Store", &link.macos_store_url);
    dest_row(&mut out, "Microsoft Store", &link.windows_store_url);
    push_str(&mut out, "</div>");
    out
}

/// The machine-readable panel of the branded page.
pub open spec fn smart_panel_text(ctx: LandingPageContext) -> Seq<char> {
    SMART_BADGE@ + verified_group_text(opt_str(ctx.tenant_domain), ctx.tenant_verified, ctx.link_status@)
        + creator_group_text(ac_of(ctx), opt_str(ctx.tenant_domain)) + all_destinations_text(
        *ctx.link,
    ) + (if ctx.theme.hide_powered_by {
        Seq::empty()
    } else {
        panel_footer_text()
    })
}

/// The machine-readable panel: trust facts Rift vouches for, hints the
/// creator gave, every destination, and the footer unless the brand hides it.
pub fn build_agent_panel(ctx: &LandingPageContext) -> (r: String)
    requires
        ctx.link_status@.len() > 0,
        (ctx.link_status@[0] as u32) < 128,
    ensures
        r@ == smart_panel_text(*ctx),
{
    let mut html = to_owned(SMART_BADGE);
    let verified = verified_group_html(ctx.tenant_domain, ctx.tenant_verified, ctx.link_status);
    push_str(&mut html, verified.as_str());
    let creator = creator_group_html(ctx.agent_context, ctx.tenant_domain);
    push_str(&mut html, creator.as_str());
    let dests = all_destinations_html(ctx.link);
    push_str(&mut html, dests.as_str());
    let ghost before_footer = html@;
    if !ctx.theme.hide_powered_by {
        push_str(&mut html, "<div class=\"agent-footer\">");
        push_str(
            &mut html,
            "<p class=\"powered\">Powered by <a href=\"https://riftl.ink\">Rift</a> &mdash; Deep links for humans and agents</p>",
        );
        push_str(
            &mut html,
            "<p class=\"hint\">AI agents: request with Accept: application/json for structured data</p>",
        );
        push_str(&mut html, "</div>");
        assert(html@ =~= before_footer + panel_footer_text());
    } else {
        assert(html@ =~= before_footer + Seq::<char>::empty());
    }
    html
}

/// The panel when the brand shows it.
pub open spec fn agent_panel_of(ctx: LandingPageContext) -> Seq<char> {
    if ctx.theme.show_agent_panel {
        smart_panel_text(ctx)
    } else {
        Seq::empty()
    }
}

// ── The page ──

// The page, split at the values written into it.
pub const PAGE_0: &'static str = "<!DOCTYPE html>\n<html lang=\"en\">\n<head>\n    <meta charset=\"UTF-8\">\n    <meta name=\"viewport\" content=\"width=device-width, initial-scale=1.0\">\n    <title>";
pub const PAGE_1: &'static str = " \u{2014} Rift</title>\n    <meta property=\"og:title\" content=\"";
pub const PAGE_2: &'static str = "\" />\n    <meta property=\"og:description\" content=\"";
pub const PAGE_3: &'static str = "\" />\n    <meta name=\"twitter:card\" content=\"summary_large_image\" />\n    <meta name=\"twitter:title\" content=\"";
pub const PAGE_4: &'static str = "\" />\n    <meta name=\"twitter:description\" content=\"";
pub const PAGE_5: &'static str = "\" />\n";
pub const PAGE_6: &'static str = "\n";
pub const PAGE_7: &'static str = "\n";
pub const PAGE_8: &'static str = "\n    <style>\n        ";
pub const PAGE_9: &'static str = "\n        *,*::before,*::after { box-sizing:border-box; margin:0; padding:0; }\n        body { font-family:var(--font); background:var(--bg); color:var(--text); min-height:100vh; display:flex; flex-direction:column; }\n        .split { display:flex; flex:1; min-height:100vh; }\n        .side-human { width:60%; display:flex; align-items:center; justify-content:center; padding:48px 40px; border-right:1px solid var(--border); }\n        .side-agent { width:40%; background:var(--surface); padding:36px 28px; display:flex; flex-direction:column; overflow-y:auto; }\n        .split.solo .side-human { width:100%; border-right:none; }\n        .split.solo .side-agent { display:none; }\n        .human-inner { text-align:center; max-width:360px; width:100%; }\n        .hero { width:100%; height:160px; object-fit:cover; border-radius:var(--radius); margin-bottom:22px; border:1px solid var(--border); }\n        .icon { width:72px; height:72px; border-radius:18px; margin-bottom:18px; box-shadow:0 6px 24px rgba(0,0,0,0.35); }\n        .brand { font-size:11px; font-weight:700; letter-spacing:3px; text-transform:uppercase; color:var(--accent); margin-bottom:18px; }\n        .human-inner h1 { font-size:26px; font-weight:700; line-height:1.25; margin-bottom:10px; letter-spacing:-0.01em; }\n        .human-inner .subtitle { font-size:15px; line-height:1.5; color:var(--text-muted); margin-bottom:32px; }\n        .btn { display:inline-flex; align-items:center; gap:8px; background:var(--accent); color:var(--accent-text); font-size:16px; font-weight:600; padding:15px 44px; border-radius:var(--radius-btn); text-decoration:none; box-shadow:0 8px 28px var(--accent-glow); transition:transform .12s ease, box-shadow .12s ease; }\n        .btn:hover { transform:translateY(-1px); box-shadow:0 12px 36px var(--accent-glow); }\n        .btn:active { transform:translateY(0); }\n        .sub { color:var(--text-muted); font-size:12px; margin-top:16px; }\n        .expiry { font-size:12px; color:var(--text-muted); margin-top:16px; }\n        .expiry.expired { color:#f59e0b; font-weight:600; }\n        .badge { display:inline-flex; align-items:center; gap:8px; background:color-mix(in srgb, var(--accent) 10%, transparent); border:1px solid color-mix(in srgb, var(--accent) 28%, transparent); border-radius:20px; padding:6px 14px; font-size:12px; font-weight:600; color:var(--accent); margin-bottom:8px; width:fit-content; }\n        .badge svg { flex-shrink:0; stroke:currentColor; }\n        .agent-tagline { font-size:13px; color:var(--text-muted); margin-bottom:24px; }\n        .trust-group { border-radius:var(--radius); background:var(--bg); border:1px solid var(--border); padding:16px 18px; margin-bottom:12px; }\n        .trust-group-header { font-size:10px; font-weight:700; letter-spacing:1.5px; text-transform:uppercase; margin-bottom:12px; display:flex; align-items:center; gap:8px; }\n        .trust-verified { border-left:3px solid var(--accent); }\n        .trust-verified .trust-group-header { color:var(--accent); }\n        .trust-creator { border-left:3px solid var(--border); }\n        .trust-creator .trust-group-header { color:var(--text-muted); }\n        .trust-row { display:flex; align-items:baseline; margin-bottom:8px; font-size:13px; line-height:1.5; }\n        .trust-row:last-child { margin-bottom:0; }\n        .trust-label { color:var(--text-muted); min-width:80px; flex-shrink:0; font-size:12px; }\n        .trust-value { color:var(--text); font-size:13px; }\n        .trust-value .check { color:var(--accent); margin-left:4px; }\n        .status-dot { display:inline-block; width:7px; height:7px; border-radius:50%; background:#22c55e; margin-right:6px; vertical-align:middle; position:relative; top:-1px; }\n        .status-dot.expired { background:#ef4444; }\n        .status-dot.flagged { background:#f59e0b; }\n        .desc-block { margin-top:10px; padding:12px 14px; background:var(--surface); border-radius:8px; border:1px solid var(--border); font-size:12px; line-height:1.65; color:var(--text-muted); }\n        .attr-note { font-size:11px; color:var(--text-muted); margin-top:8px; font-style:italic; }\n        .dest-section { margin-top:8px; }\n        .dest-header { font-size:11px; font-weight:700; color:var(--text-muted); text-transform:uppercase; letter-spacing:1px; margin-bottom:10px; }\n        .dest-item { display:flex; align-items:center; gap:8px; background:var(--bg); border:1px solid var(--border); border-radius:8px; padding:10px 14px; font-size:12px; margin-bottom:6px; }\n        .dest-type { color:var(--text-muted); min-width:70px; flex-shrink:0; font-weight:500; }\n        .dest-arrow { color:var(--text-muted); }\n        .dest-url { color:var(--accent); text-decoration:none; word-break:break-all; }\n        .dest-url:hover { text-decoration:underline; }\n        .agent-footer { margin-top:auto; padding-top:24px; }\n        .agent-footer .powered { font-size:12px; color:var(--text-muted); }\n        .agent-footer .powered a { color:var(--text-muted); text-decoration:none; }\n        .agent-footer .powered a:hover { color:var(--accent); }\n        .agent-footer .hint { font-size:10px; color:var(--text-muted); opacity:0.7; margin-top:6px; }\n        @media (max-width:767px) {\n            .split { flex-direction:column; min-height:auto; }\n            .side-human { width:100%; border-right:none; border-bottom:1px solid var(--border); padding:56px 24px; min-height:55vh; }\n            .side-agent { width:100%; padding:28px 20px; }\n            .human-inner h1 { font-size:23px; }\n        }\n    </style>\n</head>\n<body>\n<div class=\"";
pub const PAGE_10: &'static str = "\">\n    <div class=\"side-human\">\n        <div class=\"human-inner\">\n            ";
pub const PAGE_11: &'static str = "\n            ";
pub const PAGE_12: &'static str = "\n            <div class=\"brand\">";
pub const PAGE_13: &'static str = "</div>\n            ";
pub const PAGE_14: &'static str = "\n            ";
pub const PAGE_15: &'static str = "\n            <a id=\"open-btn\" class=\"btn\" href=\"#\">";
pub const PAGE_16: &'static str = "</a>\n            <p class=\"sub\" id=\"fallback-msg\"></p>\n            ";
pub const PAGE_17: &'static str = "\n        </div>\n    </div>\n    <div class=\"side-agent\">\n        ";
pub const PAGE_18: &'static str = "\n    </div>\n</div>\n    <script>\n    (function() {\n        var platform = \"";
pub const PAGE_19: &'static str = "\";\n        var storeUrl = \"";
pub const PAGE_20: &'static str = "\";\n        var iosStoreUrl = \"";
pub const PAGE_21: &'static str = "\";\n        var webUrl = \"";
pub const PAGE_22: &'static str = "\";\n        var alternateUrl = \"";
pub const PAGE_23: &'static str = "\";\n        var ctaLabel = \"";
pub const PAGE_24: &'static str = "\";\n\n        var btn = document.getElementById(\"open-btn\");\n        var msg = document.getElementById(\"fallback-msg\");\n\n        // iPadOS desktop mode reports a Mac User-Agent / Sec-CH-UA-Platform, so\n        // the server detects \"macos\". A real Mac has no touch screen; an iPad\n        // reports touch points. Correct it client-side so iPads route to the\n        // iOS App Store, not the Mac App Store.\n        if (platform === \"macos\" && /Macintosh/.test(navigator.userAgent)\n            && (navigator.maxTouchPoints || 0) > 1) {\n            platform = \"ios\";\n        }\n\n        // Copy link URL to clipboard on button tap (requires user gesture).\n        btn.addEventListener(\"click\", function() {\n            if (navigator.clipboard) {\n                navigator.clipboard.writeText(window.location.href).catch(function(){});\n            }\n        });\n\n        if (platform === \"ios\") {\n            // Universal Link trampoline opens the app if installed; otherwise\n            // the iOS App Store. `iosStoreUrl` (not the OS-selected storeUrl) so\n            // a corrected iPad never falls through to the Mac App Store.\n            if (alternateUrl) {\n                btn.href = alternateUrl;\n                btn.textContent = ctaLabel;\n            } else if (iosStoreUrl) {\n                btn.href = iosStoreUrl;\n                btn.textContent = \"Get ";
pub const PAGE_25: &'static str = "\";\n            } else if (webUrl) {\n                btn.href = webUrl;\n                btn.textContent = \"Continue\";\n            }\n        } else if (platform === \"android\") {\n            if (alternateUrl) {\n                // Cross-domain hop triggers App Links. If app installed \u{2192} opens.\n                // If not \u{2192} alternate domain redirects to the Play Store.\n                btn.href = alternateUrl;\n                btn.textContent = ctaLabel;\n            } else if (storeUrl) {\n                btn.href = storeUrl;\n                btn.textContent = \"Get ";
pub const PAGE_26: &'static str = "\";\n            } else if (webUrl) {\n                btn.href = webUrl;\n                btn.textContent = \"Continue\";\n            }\n        } else if (platform === \"macos\" || platform === \"windows\") {\n            // Desktop with a native store: prefer the store, fall back to web.\n            if (storeUrl) {\n                btn.href = storeUrl;\n                btn.textContent = \"Get ";
pub const PAGE_27: &'static str = "\";\n            } else if (webUrl) {\n                btn.href = webUrl;\n                btn.textContent = \"Continue\";\n            }\n        } else {\n            if (webUrl) {\n                btn.href = webUrl;\n                btn.textContent = \"Continue\";\n            } else if (storeUrl) {\n                btn.href = storeUrl;\n                btn.textContent = \"Get ";
pub const PAGE_28: &'static str = "\";\n            }\n        }\n    })();\n    </script>\n</body>\n</html>";

/// The branded landing page at time `now` (milliseconds), from the palettes
/// derived from the brand accent.
pub open spec fn smart_page_text(ctx: LandingPageContext, palettes: DerivedPalettes, now: i64) -> Seq<char> {
    PAGE_0@
        + html_escaped(og_title_of(ctx)) + PAGE_1@
        + html_escaped(og_title_of(ctx)) + PAGE_2@
        + html_escaped(og_description_of(ctx)) + PAGE_3@
        + html_escaped(og_title_of(ctx)) + PAGE_4@
        + html_escaped(og_description_of(ctx)) + PAGE_5@
        + meta_desc_tag_text(ctx) + PAGE_6@
        + og_image_tag_text(ctx) + PAGE_7@
        + smart_json_ld_text(ctx) + PAGE_8@
        + css_vars_text(palettes, ctx.theme.font, ctx.theme.corner_style) + PAGE_9@
        + layout_class_text(ctx) + PAGE_10@
        + hero_text(ctx) + PAGE_11@
        + icon_text(ctx) + PAGE_12@
        + html_escaped(app_name_of(ctx)) + PAGE_13@
        + title_text(ctx) + PAGE_14@
        + desc_text(ctx) + PAGE_15@
        + html_escaped(cta_label_of(ctx)) + PAGE_16@
        + expiry_notice_text(ctx.link.expires_at, now) + PAGE_17@
        + agent_panel_of(ctx) + PAGE_18@
        + js_escaped(os_name(ctx.os)) + PAGE_19@
        + js_escaped(attributed_store_url(ctx)) + PAGE_20@
        + js_escaped(or_default(opt_view(&ctx.link.ios_store_url), Seq::empty())) + PAGE_21@
        + js_escaped(or_default(opt_view(&ctx.link.web_url), Seq::empty())) + PAGE_22@
        + js_escaped(alternate_url_of(ctx)) + PAGE_23@
        + js_escaped(cta_label_of(ctx)) + PAGE_24@
        + html_escaped(app_name_of(ctx)) + PAGE_25@
        + html_escaped(app_name_of(ctx)) + PAGE_26@
        + html_escaped(app_name_of(ctx)) + PAGE_27@
        + html_escaped(app_name_of(ctx)) + PAGE_28@
}

fn wrap_escaped(open: &str, value: &str, close: &str) -> (r: String)
    ensures
        r@ == open@ + html_escaped(value@) + close@,
{
    let e = html_escape(value);
    concat3(open, e.as_str(), close)
}

fn store_url_for<'a>(ctx: &LandingPageContext<'a>) -> (r: &'a str)
    ensures
        r@ == store_url_of(*ctx),
{
    proof {
        reveal_strlit("");
    }
    let o = match ctx.os {
        Os::Ios => &ctx.link.ios_store_url,
        Os::Android => &ctx.link.android_store_url,
        Os::Mac => &ctx.link.macos_store_url,
        Os::Windows => &ctx.link.windows_store_url,
        Os::Other => return "",
    };
    match o {
        Some(s) => s.as_str(),
        None => "",
    }
}

fn attributed_store_url_for(ctx: &LandingPageContext) -> (r: String)
    ensures
        r@ == attributed_store_url(*ctx),
{
    let store = store_url_for(ctx);
    if store.unicode_len() == 0 {
        return String::new();
    }
    match ctx.os {
        Os::Android => {
            let value = concat2("rift_link=", ctx.link_id);
            append_query_param(store, "referrer", value.as_str())
        },
        Os::Windows => append_query_param(store, "cid", ctx.link_id),
        _ => to_owned(store),
    }
}

fn opt_or_empty(o: &Option<String>) -> (r: &str)
    ensures
        r@ == or_default(opt_view(o), Seq::empty()),
{
    proof {
        reveal_strlit("");
    }
    match o {
        Some(s) => s.as_str(),
        None => "",
    }
}

/// Render the branded landing page at time `now` (milliseconds).
pub fn render_smart_landing_page_at(ctx: &LandingPageContext, palettes: &DerivedPalettes, now: i64) -> (r: String)
    requires
        ctx.theme.show_agent_panel ==> ctx.link_status@.len() > 0 && (ctx.link_status@[0] as u32) < 128,
    ensures
        r@ == smart_page_text(*ctx, *palettes, now),
{
    proof {
        reveal_strlit("");
    }
    let app_name: &str = match &ctx.theme.brand_name {
        Some(n) => n.as_str(),
        None => "App",
    };
    let platform_js = js_escape(ctx.os.as_str());
    let css_vars = build_css_vars(palettes, ctx.theme.font, ctx.theme.corner_style);
    let store_attr = attributed_store_url_for(ctx);
    let store_url_js = js_escape(store_attr.as_str());
    let web_url_js = js_escape(opt_or_empty(&ctx.link.web_url));
    let ios_store_url_js = js_escape(opt_or_empty(&ctx.link.ios_store_url));
    let alternate_url = match ctx.alternate_domain {
        Some(d) => {
            let mut u = concat3("https://", d, "/");
            push_str(&mut u, ctx.link_id);
            u
        },
        None => String::new(),
    };
    let alternate_url_js = js_escape(alternate_url.as_str());
    let (title, description) = preview_texts(ctx);
    let image: Option<&str> = match preview_of(ctx) {
        Some(p) => opt_as_str(&p.image_url),
        None => None,
    };
    let og_title: &str = match title {
        Some(t) => t,
        None => app_name,
    };
    let og_description: &str = match description {
        Some(d) => d,
        None => "Open in app",
    };
    let cta_label = match &ctx.theme.cta_label {
        Some(l) => l.clone(),
        None => concat2("Open in ", app_name),
    };
    let cta_label_js = js_escape(cta_label.as_str());
    let json_ld = build_json_ld(ctx);
    let og_image_tag = match image {
        Some(img) => {
            let e = html_escape(img);
            let mut t = concat3("    <meta property=\"og:image\" content=\"", e.as_str(), "\" />\n    <meta name=\"twitter:image\" content=\"");
            push_str(&mut t, e.as_str());
            push_str(&mut t, "\" />");
            t
        },
        None => String::new(),
    };
    let hero_html = match image {
        Some(img) => wrap_escaped("<img class=\"hero\" src=\"", img, "\" alt=\"\" />"),
        None => String::new(),
    };
    let icon_html = match &ctx.theme.icon_url {
        Some(u) => {
            let mut t = wrap_escaped("<img class=\"icon\" src=\"", u.as_str(), "\" alt=\"");
            let n = html_escape(app_name);
            push_str(&mut t, n.as_str());
            push_str(&mut t, "\" />");
            t
        },
        None => String::new(),
    };
    let title_html = match title {
        Some(t) => wrap_escaped("<h1>", t, "</h1>"),
        None => String::new(),
    };
    let subtitle: Option<&str> = match &ctx.theme.tagline {
        Some(t) => Some(t.as_str()),
        None => description,
    };
    let desc_html = match subtitle {
        Some(d) => wrap_escaped("<p class=\"subtitle\">", d, "</p>"),
        None => String::new(),
    };
    let expiry_html = expiry_notice_at(ctx.link.expires_at, now);
    let agent_description: Option<&str> = match ctx.agent_context {
        Some(ac) => opt_as_str(&ac.description),
        None => None,
    };
    let meta_source: Option<&str> = match agent_description {
        Some(d) => Some(d),
        None => description,
    };
    let meta_desc_tag = match meta_source {
        Some(d) => wrap_escaped("    <meta name=\"description\" content=\"", d, "\" />"),
        None => String::new(),
    };
    let (agent_panel, layout_class) = if ctx.theme.show_agent_panel {
        (build_agent_panel(ctx), to_owned("split"))
    } else {
        (String::new(), to_owned("split solo"))
    };
    let og_title_e = html_escape(og_title);
    let og_desc_e = html_escape(og_description);
    let app_name_e = html_escape(app_name);
    let cta_label_e = html_escape(cta_label.as_str());
    let mut out = to_owned(PAGE_0);
    push_str(&mut out, og_title_e.as_str());
    push_str(&mut out, PAGE_1);
    push_str(&mut out, og_title_e.as_str());
    push_str(&mut out, PAGE_2);
    push_str(&mut out, og_desc_e.as_str());
    push_str(&mut out, PAGE_3);
    push_str(&mut out, og_title_e.as_str());
    push_str(&mut out, PAGE_4);
    push_str(&mut out, og_desc_e.as_str());
    push_str(&mut out, PAGE_5);
    push_str(&mut out, meta_desc_tag.as_str());
    push_str(&mut out, PAGE_6);
    push_str(&mut out, og_image_tag.as_str());
    push_str(&mut out, PAGE_7);
    push_str(&mut out, json_ld.as_str());
    push_str(&mut out, PAGE_8);
    push_str(&mut out, css_vars.as_str());
    push_str(&mut out, PAGE_9);
    push_str(&mut out, layout_class.as_str());
    push_str(&mut out, PAGE_10);
    push_str(&mut out, hero_html.as_str());
    push_str(&mut out, PAGE_11);
    push_str(&mut out, icon_html.as_str());
    push_str(&mut out, PAGE_12);
    push_str(&mut out, app_name_e.as_str());
    push_str(&mut out, PAGE_13);
    push_str(&mut out, title_html.as_str());
    push_str(&mut out, PAGE_14);
    push_str(&mut out, desc_html.as_str());
    push_str(&mut out, PAGE_15);
    push_str(&mut out, cta_label_e.as_str());
    push_str(&mut out, PAGE_16);
    push_str(&mut out, expiry_html.as_str());
    push_str(&mut out, PAGE_17);
    push_str(&mut out, agent_panel.as_str());
    push_str(&mut out, PAGE_18);
    push_str(&mut out, platform_js.as_str());
    push_str(&mut out, PAGE_19);
    push_str(&mut out, store_url_js.as_str());
    push_str(&mut out, PAGE_20);
    push_str(&mut out, ios_store_url_js.as_str());
    push_str(&mut out, PAGE_21);
    push_str(&mut out, web_url_js.as_str());
    push_str(&mut out, PAGE_22);
    push_str(&mut out, alternate_url_js.as_str());
    push_str(&mut out, PAGE_23);
    push_str(&mut out, cta_label_js.as_str());
    push_str(&mut out, PAGE_24);
    push_str(&mut out, app_name_e.as_str());
    push_str(&mut out, PAGE_25);
    push_str(&mut out, app_name_e.as_str());
    push_str(&mut out, PAGE_26);
    push_str(&mut out, app_name_e.as_str());
    push_str(&mut out, PAGE_27);
    push_str(&mut out, app_name_e.as_str());
    push_str(&mut out, PAGE_28);
    out
}

/// Render the branded landing page now: what
/// [`render_smart_landing_page_at`] gives at the clock's reading.
pub fn render_smart_landing_page(ctx: &LandingPageContext, palettes: &DerivedPalettes) -> (r: String)
    requires
        ctx.theme.show_agent_panel ==> ctx.link_status@.len() > 0 && (ctx.link_status@[0] as u32) < 128,
    ensures
        exists|now: i64| r@ == smart_page_text(*ctx, *palettes, now),
{
    let now = now_millis();
    render_smart_landing_page_at(ctx, palettes, now)
}

} // verus!
