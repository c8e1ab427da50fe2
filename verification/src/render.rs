//! The smart landing page: the human half (brand, headline, call to action)
//! and the machine-readable panel that tells agents what the link is and
//! where it goes, filled into the page template.
//!
//! Every piece of user or tenant text is HTML-escaped where it lands in
//! markup and JavaScript-escaped where it lands in a script literal.

use vstd::prelude::*;
use crate::config::opt_view;
use crate::text::{to_owned, push_str, concat2, concat3, replace, replace_str, str_eq, starts_with};
use crate::escape::{html_escape, html_escaped, js_escape, js_escaped};
use crate::links::{AgentContext, Link, with_query_param, append_query_param};
use crate::landing::{EffectiveTheme, ThemeView, button_class, button_class_text};
use crate::themes::BackgroundStyle;
use crate::num::{decimal, signed_decimal, u64_to_string, i64_to_string};

verus! {

/// What one landing page is rendered from.
pub struct LandingPageContext<'a> {
    pub platform_name: &'a str,
    pub is_android: bool,
    pub link: &'a Link,
    pub link_id: &'a str,
    pub theme: &'a EffectiveTheme,
    pub meta_title: Option<&'a str>,
    pub meta_description: Option<&'a str>,
    pub meta_image: Option<&'a str>,
    pub agent_context: Option<&'a AgentContext>,
    pub link_status: &'a str,
    pub tenant_domain: Option<&'a str>,
    pub tenant_verified: bool,
}

/// The view of an optional string slice.
pub open spec fn opt_str(o: Option<&str>) -> Option<Seq<char>> {
    match o {
        Some(s) => Some(s@),
        None => None,
    }
}

// ── Small pieces ──

/// `s` without every leading repetition of `p` (`str::trim_start_matches`).
pub open spec fn trim_start_all(s: Seq<char>, p: Seq<char>) -> Seq<char>
    decreases s.len(),
{
    if p.len() > 0 && p.len() <= s.len() && starts_with(s, p) {
        trim_start_all(s.skip(p.len() as int), p)
    } else {
        s
    }
}

/// `s` without every leading repetition of the non-empty `p`.
pub fn trim_start_matches(s: &str, p: &str) -> (r: String)
    requires
        p@.len() > 0,
    ensures
        r@ == trim_start_all(s@, p@),
{
    let v = crate::text::chars_of(s);
    let w = crate::text::chars_of(p);
    let mut i: usize = 0;
    assert(v@.skip(0) =~= v@);
    while w.len() <= v.len() - i && crate::text::match_at(&v, &w, i)
        invariant
            i <= v.len(),
            v@ == s@,
            w@ == p@,
            w@.len() > 0,
            trim_start_all(s@, p@) == trim_start_all(v@.skip(i as int), p@),
        decreases v.len() - i,
    {
        assert(starts_with(v@.skip(i as int), w@)) by {
            assert forall|k: int| 0 <= k < w@.len() implies v@.skip(i as int)[k] == w@[k] by {
                assert(v@.skip(i as int)[k] == v@[i + k]);
            }
        }
        assert(v@.skip(i as int).skip(w@.len() as int) =~= v@.skip(i + w@.len()));
        i = i + w.len();
    }
    proof {
        if i + w@.len() <= v@.len() {
            assert(!starts_with(v@.skip(i as int), w@)) by {
                if starts_with(v@.skip(i as int), w@) {
                    assert(crate::text::matches_at(v@, w@, i as int)) by {
                        assert forall|k: int| 0 <= k < w@.len() implies v@[i + k] == w@[k] by {
                            assert(v@.skip(i as int)[k] == v@[i + k]);
                        }
                    }
                }
            }
        }
    }
    let mut out = String::new();
    crate::text::push_chars(&mut out, &v, i, v.len());
    assert(out@ =~= v@.skip(i as int));
    out
}

/// A URL as shown in the destinations list: without `https://` and
/// `http://` prefixes.
pub open spec fn display_url(url: Seq<char>) -> Seq<char> {
    trim_start_all(trim_start_all(url, "https://"@), "http://"@)
}

/// The ASCII uppercase of a character.
pub open spec fn ascii_upper_char(c: char) -> char {
    if 'a' <= c && c <= 'z' {
        ((c as u32) - 32) as char
    } else {
        c
    }
}

/// A status name with its first (ASCII) letter capitalised, that letter
/// escaped for HTML.
pub open spec fn status_label(s: Seq<char>) -> Seq<char> {
    html_escaped(seq![ascii_upper_char(s[0])]) + s.drop_first()
}

// ── The machine-readable panel ──

/// The panel's badge, its icon stroked in the theme's primary colour.
pub open spec fn badge_text(primary: Seq<char>) -> Seq<char> {
    let t = html_escaped(primary);
    "<div class=\"badge\"><svg width=\"16\" height=\"16\" viewBox=\"0 0 16 16\" fill=\"none\"><rect x=\"3\" y=\"4\" width=\"10\" height=\"8\" rx=\"2\" stroke=\""@
        + t
        + "\" stroke-width=\"1.4\"/><circle cx=\"6.25\" cy=\"8\" r=\"1\" fill=\""@
        + t
        + "\"/><circle cx=\"9.75\" cy=\"8\" r=\"1\" fill=\""@
        + t
        + "\"/><line x1=\"5\" y1=\"3\" x2=\"5\" y2=\"4.5\" stroke=\""@
        + t
        + "\" stroke-width=\"1.2\" stroke-linecap=\"round\"/><line x1=\"11\" y1=\"3\" x2=\"11\" y2=\"4.5\" stroke=\""@
        + t
        + "\" stroke-width=\"1.2\" stroke-linecap=\"round\"/></svg>Machine-Readable Link</div>"@
}

fn badge_html(primary: &str) -> (r: String)
    ensures
        r@ == badge_text(primary@),
{
    let t = html_escape(primary);
    let mut out = to_owned(
        "<div class=\"badge\"><svg width=\"16\" height=\"16\" viewBox=\"0 0 16 16\" fill=\"none\"><rect x=\"3\" y=\"4\" width=\"10\" height=\"8\" rx=\"2\" stroke=\"",
    );
    push_str(&mut out, t.as_str());
    push_str(&mut out, "\" stroke-width=\"1.4\"/><circle cx=\"6.25\" cy=\"8\" r=\"1\" fill=\"");
    push_str(&mut out, t.as_str());
    push_str(&mut out, "\"/><circle cx=\"9.75\" cy=\"8\" r=\"1\" fill=\"");
    push_str(&mut out, t.as_str());
    push_str(&mut out, "\"/><line x1=\"5\" y1=\"3\" x2=\"5\" y2=\"4.5\" stroke=\"");
    push_str(&mut out, t.as_str());
    push_str(
        &mut out,
        "\" stroke-width=\"1.2\" stroke-linecap=\"round\"/><line x1=\"11\" y1=\"3\" x2=\"11\" y2=\"4.5\" stroke=\"",
    );
    push_str(&mut out, t.as_str());
    push_str(
        &mut out,
        "\" stroke-width=\"1.2\" stroke-linecap=\"round\"/></svg>Machine-Readable Link</div>",
    );
    out
}

/// The status-dot modifier class of a status.
pub open spec fn status_class(status: Seq<char>) -> Seq<char> {
    if status == "expired"@ {
        " expired"@
    } else if status == "flagged"@ {
        " flagged"@
    } else {
        ""@
    }
}

/// The "Verified by Rift" group: the tenant's domain (with a check mark when
/// verified) and the link's status.
pub open spec fn verified_group_text(
    tenant_domain: Option<Seq<char>>,
    tenant_verified: bool,
    status: Seq<char>,
) -> Seq<char> {
    let domain_row = match tenant_domain {
        Some(d) => "<div class=\"trust-row\"><span class=\"trust-label\">Domain</span><span class=\"trust-value\">"@
            + html_escaped(d) + (if tenant_verified {
            "<span class=\"check\">&#10003;</span>"@
        } else {
            ""@
        }) + "</span></div>"@,
        None => ""@,
    };
    "<p class=\"agent-tagline\">This link is structured for both humans and AI agents.</p>"@
        + "<div class=\"trust-group trust-verified\"><div class=\"trust-group-header\">Verified by Rift</div>"@
        + domain_row
        + "<div class=\"trust-row\"><span class=\"trust-label\">Status</span><span class=\"trust-value\"><span class=\"status-dot"@
        + status_class(status) + "\"></span>"@ + status_label(status) + "</span></div>"@
        + "</div>"@
}

fn ascii_upper(c: char) -> (r: char)
    ensures
        r == ascii_upper_char(c),
{
    if 'a' <= c && c <= 'z' {
        crate::text::char_from_ascii((c as u32) - 32)
    } else {
        c
    }
}

pub(crate) fn verified_group_html(tenant_domain: Option<&str>, tenant_verified: bool, status: &str) -> (r: String)
    requires
        status@.len() > 0,
    ensures
        r@ == verified_group_text(opt_str(tenant_domain), tenant_verified, status@),
{
    proof {
        reveal_strlit("");
    }
    let mut out = to_owned(
        "<p class=\"agent-tagline\">This link is structured for both humans and AI agents.</p>",
    );
    push_str(
        &mut out,
        "<div class=\"trust-group trust-verified\"><div class=\"trust-group-header\">Verified by Rift</div>",
    );
    if let Some(domain) = tenant_domain {
        push_str(
            &mut out,
            "<div class=\"trust-row\"><span class=\"trust-label\">Domain</span><span class=\"trust-value\">",
        );
        let d = html_escape(domain);
        push_str(&mut out, d.as_str());
        if tenant_verified {
            push_str(&mut out, "<span class=\"check\">&#10003;</span>");
        } else {
            push_str(&mut out, "");
        }
        push_str(&mut out, "</span></div>");
    }
    push_str(
        &mut out,
        "<div class=\"trust-row\"><span class=\"trust-label\">Status</span><span class=\"trust-value\"><span class=\"status-dot",
    );
    let class = if str_eq(status, "expired") {
        " expired"
    } else if str_eq(status, "flagged") {
        " flagged"
    } else {
        ""
    };
    push_str(&mut out, class);
    push_str(&mut out, "\"></span>");
    let chars = crate::text::chars_of(status);
    let mut first = String::new();
    crate::text::push_char(&mut first, ascii_upper(chars[0]));
    let first_escaped = html_escape(first.as_str());
    push_str(&mut out, first_escaped.as_str());
    crate::text::push_chars(&mut out, &chars, 1, chars.len());
    push_str(&mut out, "</span></div>");
    push_str(&mut out, "</div>");
    proof {
        assert(first@ =~= seq![ascii_upper_char(status@[0])]);
        assert(chars@.subrange(1, chars@.len() as int) =~= status@.drop_first());
        assert(out@ =~= verified_group_text(opt_str(tenant_domain), tenant_verified, status@));
    }
    out
}

/// Whether the creator gave any agent hint.
pub open spec fn has_agent_hints(ac: Option<AgentContext>) -> bool {
    match ac {
        Some(a) => a.action is Some || a.cta is Some || a.description is Some,
        None => false,
    }
}

/// One labelled row of the creator group.
pub open spec fn creator_row_text(label: Seq<char>, value: Seq<char>) -> Seq<char> {
    "<div class=\"trust-row\"><span class=\"trust-label\">"@ + label
        + "</span><span class=\"trust-value\">"@ + html_escaped(value) + "</span></div>"@
}

/// An optional row.
pub open spec fn opt_row(label: Seq<char>, value: Option<Seq<char>>) -> Seq<char> {
    match value {
        Some(v) => creator_row_text(label, v),
        None => ""@,
    }
}

/// The "Provided by link creator" group, when the creator gave any hint.
pub open spec fn creator_group_text(ac: Option<AgentContext>, tenant_domain: Option<Seq<char>>) -> Seq<char> {
    if has_agent_hints(ac) {
        let a = ac->0;
        let desc = match opt_view(&a.description) {
            Some(d) => "<div class=\"desc-block\">"@ + html_escaped(d) + "</div>"@ + match tenant_domain {
                Some(dom) => "<p class=\"attr-note\">Provided by the owner of "@ + html_escaped(dom)
                    + ". Not independently verified.</p>"@,
                None => ""@,
            },
            None => ""@,
        };
        "<div class=\"trust-group trust-creator\"><div class=\"trust-group-header\">Provided by link creator</div>"@
            + opt_row("Action"@, opt_view(&a.action)) + opt_row("CTA"@, opt_view(&a.cta)) + desc
            + "</div>"@
    } else {
        ""@
    }
}

fn creator_row(out: &mut String, label: &str, value: &Option<String>)
    ensures
        final(out)@ == old(out)@ + opt_row(label@, opt_view(value)),
{
    if let Some(v) = value {
        push_str(out, "<div class=\"trust-row\"><span class=\"trust-label\">");
        push_str(out, label);
        push_str(out, "</span><span class=\"trust-value\">");
        let e = html_escape(v.as_str());
        push_str(out, e.as_str());
        push_str(out, "</span></div>");
    } else {
        assert(old(out)@ + ""@ =~= old(out)@) by {
            reveal_strlit("");
        }
    }
}

pub(crate) fn creator_group_html(ac: Option<&AgentContext>, tenant_domain: Option<&str>) -> (r: String)
    ensures
        r@ == creator_group_text(
            match ac {
                Some(a) => Some(*a),
                None => None,
            },
            opt_str(tenant_domain),
        ),
{
    proof {
        reveal_strlit("");
    }
    let hinted = match ac {
        Some(a) => a.action.is_some() || a.cta.is_some() || a.description.is_some(),
        None => false,
    };
    if !hinted {
        return String::new();
    }
    let a = ac.unwrap();
    let mut out = to_owned(
        "<div class=\"trust-group trust-creator\"><div class=\"trust-group-header\">Provided by link creator</div>",
    );
    creator_row(&mut out, "Action", &a.action);
    creator_row(&mut out, "CTA", &a.cta);
    if let Some(desc) = &a.description {
        push_str(&mut out, "<div class=\"desc-block\">");
        let e = html_escape(desc.as_str());
        push_str(&mut out, e.as_str());
        push_str(&mut out, "</div>");
        if let Some(domain) = tenant_domain {
            push_str(&mut out, "<p class=\"attr-note\">Provided by the owner of ");
            let d = html_escape(domain);
            push_str(&mut out, d.as_str());
            push_str(&mut out, ". Not independently verified.</p>");
        }
    }
    push_str(&mut out, "</div>");
    assert(out@ =~= creator_group_text(Some(*a), opt_str(tenant_domain)));
    out
}

/// One destination row.
pub open spec fn dest_row_text(label: Seq<char>, url: Seq<char>) -> Seq<char> {
    "<div class=\"dest-item\"><span class=\"dest-type\">"@ + label
        + "</span><span class=\"dest-arrow\">&rarr;</span><a href=\""@ + html_escaped(url)
        + "\" class=\"dest-url\">"@ + html_escaped(display_url(url)) + "</a></div>"@
}

/// An optional destination row.
pub open spec fn opt_dest(label: Seq<char>, url: Option<Seq<char>>) -> Seq<char> {
    match url {
        Some(u) => dest_row_text(label, u),
        None => ""@,
    }
}

/// Whether the link has any destination listed in the panel.
pub open spec fn has_listed_destination(link: Link) -> bool {
    link.ios_deep_link is Some || link.android_deep_link is Some || link.web_url is Some
        || link.ios_store_url is Some || link.android_store_url is Some
}

/// The destinations section: deep links, web and store URLs in that order.
pub open spec fn destinations_text(link: Link) -> Seq<char> {
    if has_listed_destination(link) {
        "<div class=\"dest-section\"><div class=\"dest-header\">Destinations</div>"@ + opt_dest(
            "iOS"@,
            opt_view(&link.ios_deep_link),
        ) + opt_dest("Android"@, opt_view(&link.android_deep_link)) + opt_dest(
            "Web"@,
            opt_view(&link.web_url),
        ) + opt_dest("App Store"@, opt_view(&link.ios_store_url)) + opt_dest(
            "Play Store"@,
            opt_view(&link.android_store_url),
        ) + "</div>"@
    } else {
        ""@
    }
}

pub(crate) fn dest_row(out: &mut String, label: &str, url: &Option<String>)
    ensures
        final(out)@ == old(out)@ + opt_dest(label@, opt_view(url)),
{
    if let Some(u) = url {
        proof {
            reveal_strlit("https://");
            reveal_strlit("http://");
        }
        push_str(out, "<div class=\"dest-item\"><span class=\"dest-type\">");
        push_str(out, label);
        push_str(out, "</span><span class=\"dest-arrow\">&rarr;</span><a href=\"");
        let e = html_escape(u.as_str());
        push_str(out, e.as_str());
        push_str(out, "\" class=\"dest-url\">");
        let once = trim_start_matches(u.as_str(), "https://");
        let shown = trim_start_matches(once.as_str(), "http://");
        let d = html_escape(shown.as_str());
        push_str(out, d.as_str());
        push_str(out, "</a></div>");
    } else {
        assert(old(out)@ + ""@ =~= old(out)@) by {
            reveal_strlit("");
        }
    }
}

fn destinations_html(link: &Link) -> (r: String)
    ensures
        r@ == destinations_text(*link),
{
    proof {
        reveal_strlit("");
    }
    if !(link.ios_deep_link.is_some() || link.android_deep_link.is_some() || link.web_url.is_some()
        || link.ios_store_url.is_some() || link.android_store_url.is_some()) {
        return String::new();
    }
    let mut out = to_owned(
        "<div class=\"dest-section\"><div class=\"dest-header\">Destinations</div>",
    );
    dest_row(&mut out, "iOS", &link.ios_deep_link);
    dest_row(&mut out, "Android", &link.android_deep_link);
    dest_row(&mut out, "Web", &link.web_url);
    dest_row(&mut out, "App Store", &link.ios_store_url);
    dest_row(&mut out, "Play Store", &link.android_store_url);
    push_str(&mut out, "</div>");
    out
}

/// The panel's footer.
pub open spec fn panel_footer_text() -> Seq<char> {
    "<div class=\"agent-footer\">"@
        + "<p class=\"powered\">Powered by <a href=\"https://riftl.ink\">Rift</a> &mdash; Deep links for humans and agents</p>"@
        + "<p class=\"hint\">AI agents: request with Accept: application/json for structured data</p>"@
        + "</div>"@
}

/// The machine-readable panel of a landing page.
pub open spec fn agent_panel_text(ctx: LandingPageContext) -> Seq<char> {
    badge_text(ctx.theme.primary@) + verified_group_text(
        opt_str(ctx.tenant_domain),
        ctx.tenant_verified,
        ctx.link_status@,
    ) + creator_group_text(
        match ctx.agent_context {
            Some(a) => Some(*a),
            None => None,
        },
        opt_str(ctx.tenant_domain),
    ) + destinations_text(*ctx.link) + panel_footer_text()
}

/// The machine-readable panel: trust facts Rift vouches for, hints the
/// creator gave, the destinations, and a pointer to the JSON form.
pub fn build_agent_panel(ctx: &LandingPageContext) -> (r: String)
    requires
        ctx.link_status@.len() > 0,
        (ctx.link_status@[0] as u32) < 128,
    ensures
        r@ == agent_panel_text(*ctx),
{
    let mut html = badge_html(ctx.theme.primary.as_str());
    let verified = verified_group_html(ctx.tenant_domain, ctx.tenant_verified, ctx.link_status);
    push_str(&mut html, verified.as_str());
    let creator = creator_group_html(ctx.agent_context, ctx.tenant_domain);
    push_str(&mut html, creator.as_str());
    let dests = destinations_html(ctx.link);
    push_str(&mut html, dests.as_str());
    push_str(&mut html, "<div class=\"agent-footer\">");
    push_str(
        &mut html,
        "<p class=\"powered\">Powered by <a href=\"https://riftl.ink\">Rift</a> &mdash; Deep links for humans and agents</p>",
    );
    push_str(
        &mut html,
        "<p class=\"hint\">AI agents: request with Accept: application/json for structured data</p>",
    );
    push_str(&mut html, "</div>");
    assert(html@ =~= agent_panel_text(*ctx));
    html
}

// ── The template ──

/// A page template with each `(key, value)` replacement applied in turn, each
/// to the whole page so far (`str::replace` folded left).
pub open spec fn fill_template(t: Seq<char>, pairs: Seq<(Seq<char>, Seq<char>)>) -> Seq<char>
    decreases pairs.len(),
{
    if pairs.len() == 0 {
        t
    } else {
        replace(fill_template(t, pairs.drop_last()), pairs.last().0, pairs.last().1)
    }
}

/// The replacements of a vector, as character sequences.
pub open spec fn pair_views(v: Seq<(&str, String)>) -> Seq<(Seq<char>, Seq<char>)> {
    v.map_values(|p: (&str, String)| (p.0@, p.1@))
}

fn render_template(template: &str, replacements: &Vec<(&str, String)>) -> (r: String)
    requires
        forall|i: int| 0 <= i < replacements@.len() ==> (#[trigger] replacements@[i]).0@.len() > 0,
    ensures
        r@ == fill_template(template@, pair_views(replacements@)),
{
    let mut html = to_owned(template);
    let mut i: usize = 0;
    while i < replacements.len()
        invariant
            i <= replacements@.len(),
            forall|k: int| 0 <= k < replacements@.len() ==> (#[trigger] replacements@[k]).0@.len() > 0,
            html@ == fill_template(template@, pair_views(replacements@.subrange(0, i as int))),
        decreases replacements@.len() - i,
    {
        let (key, value) = &replacements[i];
        assert(replacements@[i as int].0@.len() > 0);
        html = replace_str(html.as_str(), key, value.as_str());
        assert(pair_views(replacements@.subrange(0, i + 1)).drop_last() =~= pair_views(
            replacements@.subrange(0, i as int),
        ));
        i = i + 1;
    }
    assert(replacements@.subrange(0, replacements@.len() as int) =~= replacements@);
    html
}

// ── Pieces of the human half ──

/// The page description: the creator's agent description, else the theme's
/// social description.
pub open spec fn meta_description_tag_text(ctx: LandingPageContext) -> Seq<char> {
    let d = match ctx.agent_context {
        Some(a) => match opt_view(&a.description) {
            Some(x) => x,
            None => ctx.theme.og_description@,
        },
        None => ctx.theme.og_description@,
    };
    "    <meta name=\"description\" content=\""@ + html_escaped(d) + "\" />"@
}

/// The social image tag: the theme's image, else the link's.
pub open spec fn og_image_tag_text(ctx: LandingPageContext) -> Seq<char> {
    let img = match opt_view(&ctx.theme.og_image_url) {
        Some(x) => Some(x),
        None => opt_str(ctx.meta_image),
    };
    match img {
        Some(x) => "    <meta property=\"og:image\" content=\""@ + html_escaped(x) + "\" />"@,
        None => ""@,
    }
}

/// The CSS background of the page.
pub open spec fn background_css_text(t: ThemeView) -> Seq<char> {
    match t.background_style {
        BackgroundStyle::Solid => html_escaped(t.background_solid),
        BackgroundStyle::Gradient => "linear-gradient("@ + signed_decimal(
            t.background_gradient_angle as int,
        ) + "deg, "@ + html_escaped(t.background_gradient_from) + " 0%, "@ + html_escaped(
            t.background_gradient_to,
        ) + " 100%)"@,
        BackgroundStyle::Image => {
            let image = match t.background_image_url {
                Some(u) => "url('"@ + html_escaped(u) + "')"@,
                None => "none"@,
            };
            "linear-gradient(rgba(15,23,42,"@ + t.overlay_opacity + "), rgba(15,23,42,"@
                + t.overlay_opacity + ")), "@ + image
        },
    }
}

/// The theme's badge.
pub open spec fn theme_badge_text(t: ThemeView) -> Seq<char> {
    match t.badge_text {
        Some(x) => "<div class=\"theme-badge\">"@ + html_escaped(x) + "</div>"@,
        None => ""@,
    }
}

/// The brand lockup: logo and name, or the name alone; nothing when the
/// logo module is off.
pub open spec fn logo_text(t: ThemeView) -> Seq<char> {
    if t.show_logo {
        match t.logo_url {
            Some(u) => "<div class=\"brand-lockup\"><img class=\"brand-mark logo\" src=\""@
                + html_escaped(u) + "\" alt=\""@ + html_escaped(t.brand_name)
                + "\" /><div class=\"brand-name\">"@ + html_escaped(t.brand_name)
                + "</div></div>"@,
            None => "<div class=\"brand-name\">"@ + html_escaped(t.brand_name) + "</div>"@,
        }
    } else {
        ""@
    }
}

/// The app icon, when the icon module is on and there is one.
pub open spec fn icon_block_text(t: ThemeView) -> Seq<char> {
    if t.show_icon {
        match t.icon_url {
            Some(u) => "<img class=\"app-icon\" src=\""@ + html_escaped(u) + "\" alt=\""@
                + html_escaped(t.brand_name) + "\" />"@,
            None => ""@,
        }
    } else {
        ""@
    }
}

/// The tagline paragraph.
pub open spec fn tagline_text(t: ThemeView) -> Seq<char> {
    match t.tagline {
        Some(x) => "<p class=\"tagline\">"@ + html_escaped(x) + "</p>"@,
        None => ""@,
    }
}

/// The hero image, when the hero module is on and there is one.
pub open spec fn hero_image_text(t: ThemeView) -> Seq<char> {
    if t.show_hero_image {
        match t.hero_image_url {
            Some(u) => "<div class=\"hero-image-shell\"><img class=\"hero-image\" src=\""@
                + html_escaped(u) + "\" alt=\""@ + html_escaped(t.brand_name) + "\" /></div>"@,
            None => ""@,
        }
    } else {
        ""@
    }
}

/// The footer paragraph, when the footer module is on and there is one.
pub open spec fn footer_text_html(t: ThemeView) -> Seq<char> {
    if t.show_footer {
        match t.footer_text {
            Some(x) => "<p class=\"human-footer\">"@ + html_escaped(x) + "</p>"@,
            None => ""@,
        }
    } else {
        ""@
    }
}

/// The store URL of the visitor's platform (`ios` or `android`), or empty.
pub open spec fn platform_store_url(ctx: LandingPageContext) -> Seq<char> {
    let o = if ctx.platform_name@ == "ios"@ {
        opt_view(&ctx.link.ios_store_url)
    } else if ctx.platform_name@ == "android"@ {
        opt_view(&ctx.link.android_store_url)
    } else {
        None
    };
    match o {
        Some(u) => u,
        None => ""@,
    }
}

/// The store URL the page sends the visitor to: on Android with the install
/// referrer `rift_link=<id>` attached.
pub open spec fn store_url_with_referrer(ctx: LandingPageContext) -> Seq<char> {
    let store = platform_store_url(ctx);
    if ctx.is_android && store.len() > 0 {
        with_query_param(store, "referrer"@, "rift_link="@ + ctx.link_id@)
    } else {
        store
    }
}

/// An optional string, or a default.
pub open spec fn or_default(o: Option<Seq<char>>, d: Seq<char>) -> Seq<char> {
    match o {
        Some(x) => x,
        None => d,
    }
}

/// The replacements that turn the page template into a landing page, in the
/// order they are applied.
pub open spec fn landing_pairs(
    ctx: LandingPageContext,
    json_ld: Seq<char>,
    primary_text: Seq<char>,
) -> Seq<(Seq<char>, Seq<char>)> {
    let t = ctx.theme@;
    seq![
        ("{{OG_TITLE}}"@, html_escaped(t.og_title)),
        ("{{OG_TITLE_ESCAPED}}"@, html_escaped(t.og_title)),
        ("{{OG_DESCRIPTION_ESCAPED}}"@, html_escaped(t.og_description)),
        ("{{META_DESCRIPTION_TAG}}"@, meta_description_tag_text(ctx)),
        ("{{OG_IMAGE_TAG}}"@, og_image_tag_text(ctx)),
        ("{{JSON_LD}}"@, json_ld),
        ("{{BACKGROUND_CSS}}"@, background_css_text(t)),
        ("{{SURFACE}}"@, html_escaped(t.surface)),
        ("{{SURFACE_MUTED}}"@, html_escaped(t.surface_muted)),
        ("{{TEXT}}"@, html_escaped(t.text)),
        ("{{TEXT_MUTED}}"@, html_escaped(t.text_muted)),
        ("{{BORDER}}"@, html_escaped(t.border)),
        ("{{PRIMARY}}"@, html_escaped(t.primary)),
        ("{{PRIMARY_TEXT}}"@, primary_text),
        ("{{SECONDARY}}"@, html_escaped(t.secondary)),
        ("{{ACCENT}}"@, html_escaped(t.accent)),
        ("{{SUCCESS}}"@, html_escaped(t.success)),
        ("{{WARNING}}"@, html_escaped(t.warning)),
        ("{{DANGER}}"@, html_escaped(t.danger)),
        ("{{RADIUS}}"@, decimal(t.radius_px as nat)),
        ("{{SHADOW_CSS}}"@, t.shadow_css),
        ("{{CARD_SURFACE}}"@, t.card_surface_css),
        ("{{HEADING_FONT}}"@, t.heading_font),
        ("{{BODY_FONT}}"@, t.body_font),
        ("{{MONO_FONT}}"@, t.mono_font),
        ("{{HEADING_SIZE}}"@, decimal(t.heading_size_px as nat)),
        ("{{BODY_SIZE}}"@, decimal(t.body_size_px as nat)),
        ("{{BADGE_HTML}}"@, theme_badge_text(t)),
        ("{{LOGO_HTML}}"@, logo_text(t)),
        ("{{ICON_BLOCK}}"@, icon_block_text(t)),
        ("{{TAGLINE_HTML}}"@, tagline_text(t)),
        ("{{HEADLINE}}"@, html_escaped(t.headline)),
        ("{{SUBHEADLINE}}"@, html_escaped(or_default(t.subheadline, "Open the app to continue."@))),
        ("{{BUTTON_CLASS}}"@, button_class_text(t.cta_style)),
        ("{{DEFAULT_CTA}}"@, html_escaped(or_default(t.primary_cta_label, "Continue"@))),
        ("{{FOOTER_HTML}}"@, footer_text_html(t)),
        ("{{HERO_IMAGE_HTML}}"@, hero_image_text(t)),
        ("{{AGENT_PANEL}}"@, agent_panel_text(ctx)),
        ("{{PLATFORM_JS}}"@, js_escaped(ctx.platform_name@)),
        ("{{STORE_URL_JS}}"@, js_escaped(store_url_with_referrer(ctx))),
        ("{{WEB_URL_JS}}"@, js_escaped(or_default(opt_view(&ctx.link.web_url), ""@))),
        ("{{BRAND_NAME}}"@, js_escaped(t.brand_name)),
    ]
}

fn meta_description_tag(ctx: &LandingPageContext) -> (r: String)
    ensures
        r@ == meta_description_tag_text(*ctx),
{
    let d: &str = match ctx.agent_context {
        Some(a) => match &a.description {
            Some(x) => x.as_str(),
            None => ctx.theme.og_description.as_str(),
        },
        None => ctx.theme.og_description.as_str(),
    };
    let e = html_escape(d);
    concat3("    <meta name=\"description\" content=\"", e.as_str(), "\" />")
}

fn og_image_tag(ctx: &LandingPageContext) -> (r: String)
    ensures
        r@ == og_image_tag_text(*ctx),
{
    proof {
        reveal_strlit("");
    }
    let img: Option<&str> = match &ctx.theme.og_image_url {
        Some(x) => Some(x.as_str()),
        None => ctx.meta_image,
    };
    match img {
        Some(x) => {
            let e = html_escape(x);
            concat3("    <meta property=\"og:image\" content=\"", e.as_str(), "\" />")
        },
        None => String::new(),
    }
}

fn background_css(t: &EffectiveTheme) -> (r: String)
    ensures
        r@ == background_css_text(t@),
{
    match t.background_style {
        BackgroundStyle::Solid => html_escape(t.background_solid.as_str()),
        BackgroundStyle::Gradient => {
            let angle = i64_to_string(t.background_gradient_angle as i64);
            let mut out = concat2("linear-gradient(", angle.as_str());
            push_str(&mut out, "deg, ");
            let from = html_escape(t.background_gradient_from.as_str());
            push_str(&mut out, from.as_str());
            push_str(&mut out, " 0%, ");
            let to = html_escape(t.background_gradient_to.as_str());
            push_str(&mut out, to.as_str());
            push_str(&mut out, " 100%)");
            out
        },
        BackgroundStyle::Image => {
            let image = match &t.background_image_url {
                Some(u) => {
                    let e = html_escape(u.as_str());
                    concat3("url('", e.as_str(), "')")
                },
                None => to_owned("none"),
            };
            let mut out = concat3(
                "linear-gradient(rgba(15,23,42,",
                t.overlay_opacity.as_str(),
                "), rgba(15,23,42,",
            );
            push_str(&mut out, t.overlay_opacity.as_str());
            push_str(&mut out, ")), ");
            push_str(&mut out, image.as_str());
            out
        },
    }
}

fn wrap_escaped(open: &str, value: &str, close: &str) -> (r: String)
    ensures
        r@ == open@ + html_escaped(value@) + close@,
{
    let e = html_escape(value);
    concat3(open, e.as_str(), close)
}

fn theme_badge(t: &EffectiveTheme) -> (r: String)
    ensures
        r@ == theme_badge_text(t@),
{
    proof {
        reveal_strlit("");
    }
    match &t.badge_text {
        Some(x) => wrap_escaped("<div class=\"theme-badge\">", x.as_str(), "</div>"),
        None => String::new(),
    }
}

fn logo_html(t: &EffectiveTheme) -> (r: String)
    ensures
        r@ == logo_text(t@),
{
    proof {
        reveal_strlit("");
    }
    if !t.show_logo {
        return String::new();
    }
    let brand = html_escape(t.brand_name.as_str());
    match &t.logo_url {
        Some(u) => {
            let logo = html_escape(u.as_str());
            let mut out = concat3(
                "<div class=\"brand-lockup\"><img class=\"brand-mark logo\" src=\"",
                logo.as_str(),
                "\" alt=\"",
            );
            push_str(&mut out, brand.as_str());
            push_str(&mut out, "\" /><div class=\"brand-name\">");
            push_str(&mut out, brand.as_str());
            push_str(&mut out, "</div></div>");
            out
        },
        None => concat3("<div class=\"brand-name\">", brand.as_str(), "</div>"),
    }
}

fn icon_block(t: &EffectiveTheme) -> (r: String)
    ensures
        r@ == icon_block_text(t@),
{
    proof {
        reveal_strlit("");
    }
    if !t.show_icon {
        return String::new();
    }
    match &t.icon_url {
        Some(u) => {
            let icon = html_escape(u.as_str());
            let brand = html_escape(t.brand_name.as_str());
            let mut out = concat3("<img class=\"app-icon\" src=\"", icon.as_str(), "\" alt=\"");
            push_str(&mut out, brand.as_str());
            push_str(&mut out, "\" />");
            out
        },
        None => String::new(),
    }
}

fn tagline_html(t: &EffectiveTheme) -> (r: String)
    ensures
        r@ == tagline_text(t@),
{
    proof {
        reveal_strlit("");
    }
    match &t.tagline {
        Some(x) => wrap_escaped("<p class=\"tagline\">", x.as_str(), "</p>"),
        None => String::new(),
    }
}

fn hero_image_html(t: &EffectiveTheme) -> (r: String)
    ensures
        r@ == hero_image_text(t@),
{
    proof {
        reveal_strlit("");
    }
    if !t.show_hero_image {
        return String::new();
    }
    match &t.hero_image_url {
        Some(u) => {
            let hero = html_escape(u.as_str());
            let brand = html_escape(t.brand_name.as_str());
            let mut out = concat3(
                "<div class=\"hero-image-shell\"><img class=\"hero-image\" src=\"",
                hero.as_str(),
                "\" alt=\"",
            );
            push_str(&mut out, brand.as_str());
            push_str(&mut out, "\" /></div>");
            out
        },
        None => String::new(),
    }
}

fn footer_html(t: &EffectiveTheme) -> (r: String)
    ensures
        r@ == footer_text_html(t@),
{
    proof {
        reveal_strlit("");
    }
    if !t.show_footer {
        return String::new();
    }
    match &t.footer_text {
        Some(x) => wrap_escaped("<p class=\"human-footer\">", x.as_str(), "</p>"),
        None => String::new(),
    }
}

fn store_url_js(ctx: &LandingPageContext) -> (r: String)
    ensures
        r@ == js_escaped(store_url_with_referrer(*ctx)),
{
    proof {
        reveal_strlit("");
    }
    let store: &str = if str_eq(ctx.platform_name, "ios") {
        match &ctx.link.ios_store_url {
            Some(u) => u.as_str(),
            None => "",
        }
    } else if str_eq(ctx.platform_name, "android") {
        match &ctx.link.android_store_url {
            Some(u) => u.as_str(),
            None => "",
        }
    } else {
        ""
    };
    assert(store@ == platform_store_url(*ctx));
    let with_referrer = if ctx.is_android && store.unicode_len() > 0 {
        let value = concat2("rift_link=", ctx.link_id);
        append_query_param(store, "referrer", value.as_str())
    } else {
        to_owned(store)
    };
    js_escape(with_referrer.as_str())
}

fn escaped_or(o: &Option<String>, default: &str) -> (r: String)
    ensures
        r@ == html_escaped(or_default(opt_view(o), default@)),
{
    match o {
        Some(x) => html_escape(x.as_str()),
        None => html_escape(default),
    }
}

/// Render the smart landing page: `template` with every placeholder filled
/// from the theme, the link and the request, the structured-data script
/// included (see [`crate::jsonld::lemma_json_ld_block_is_safe`]).
/// `primary_text` is the text colour that reads on the primary colour.
pub fn render_smart_landing_page(ctx: &LandingPageContext, template: &str, primary_text: &str) -> (r: String)
    requires
        ctx.link_status@.len() > 0,
        (ctx.link_status@[0] as u32) < 128,
    ensures
        r@ == fill_template(template@, landing_pairs(*ctx, crate::jsonld::json_ld_of(*ctx), primary_text@)),
{
    let json_ld = crate::jsonld::build_json_ld(ctx);
    let t = ctx.theme;
    let mut pairs: Vec<(&str, String)> = Vec::new();
    pairs.push(("{{OG_TITLE}}", html_escape(t.og_title.as_str())));
    pairs.push(("{{OG_TITLE_ESCAPED}}", html_escape(t.og_title.as_str())));
    pairs.push(("{{OG_DESCRIPTION_ESCAPED}}", html_escape(t.og_description.as_str())));
    pairs.push(("{{META_DESCRIPTION_TAG}}", meta_description_tag(ctx)));
    pairs.push(("{{OG_IMAGE_TAG}}", og_image_tag(ctx)));
    pairs.push(("{{JSON_LD}}", json_ld));
    pairs.push(("{{BACKGROUND_CSS}}", background_css(t)));
    pairs.push(("{{SURFACE}}", html_escape(t.surface.as_str())));
    pairs.push(("{{SURFACE_MUTED}}", html_escape(t.surface_muted.as_str())));
    pairs.push(("{{TEXT}}", html_escape(t.text.as_str())));
    pairs.push(("{{TEXT_MUTED}}", html_escape(t.text_muted.as_str())));
    pairs.push(("{{BORDER}}", html_escape(t.border.as_str())));
    pairs.push(("{{PRIMARY}}", html_escape(t.primary.as_str())));
    pairs.push(("{{PRIMARY_TEXT}}", to_owned(primary_text)));
    pairs.push(("{{SECONDARY}}", html_escape(t.secondary.as_str())));
    pairs.push(("{{ACCENT}}", html_escape(t.accent.as_str())));
    pairs.push(("{{SUCCESS}}", html_escape(t.success.as_str())));
    pairs.push(("{{WARNING}}", html_escape(t.warning.as_str())));
    pairs.push(("{{DANGER}}", html_escape(t.danger.as_str())));
    pairs.push(("{{RADIUS}}", u64_to_string(t.radius_px as u64)));
    pairs.push(("{{SHADOW_CSS}}", to_owned(t.shadow_css)));
    pairs.push(("{{CARD_SURFACE}}", t.card_surface_css.clone()));
    pairs.push(("{{HEADING_FONT}}", to_owned(t.heading_font)));
    pairs.push(("{{BODY_FONT}}", to_owned(t.body_font)));
    pairs.push(("{{MONO_FONT}}", to_owned(t.mono_font)));
    pairs.push(("{{HEADING_SIZE}}", u64_to_string(t.heading_size_px as u64)));
    pairs.push(("{{BODY_SIZE}}", u64_to_string(t.body_size_px as u64)));
    pairs.push(("{{BADGE_HTML}}", theme_badge(t)));
    pairs.push(("{{LOGO_HTML}}", logo_html(t)));
    pairs.push(("{{ICON_BLOCK}}", icon_block(t)));
    pairs.push(("{{TAGLINE_HTML}}", tagline_html(t)));
    pairs.push(("{{HEADLINE}}", html_escape(t.headline.as_str())));
    pairs.push(("{{SUBHEADLINE}}", escaped_or(&t.subheadline, "Open the app to continue.")));
    pairs.push(("{{BUTTON_CLASS}}", to_owned(button_class(t.cta_style))));
    pairs.push(("{{DEFAULT_CTA}}", escaped_or(&t.primary_cta_label, "Continue")));
    pairs.push(("{{FOOTER_HTML}}", footer_html(t)));
    pairs.push(("{{HERO_IMAGE_HTML}}", hero_image_html(t)));
    pairs.push(("{{AGENT_PANEL}}", build_agent_panel(ctx)));
    pairs.push(("{{PLATFORM_JS}}", js_escape(ctx.platform_name)));
    pairs.push(("{{STORE_URL_JS}}", store_url_js(ctx)));
    let web_url: &str = match &ctx.link.web_url {
        Some(u) => u.as_str(),
        None => "",
    };
    pairs.push(("{{WEB_URL_JS}}", js_escape(web_url)));
    pairs.push(("{{BRAND_NAME}}", js_escape(t.brand_name.as_str())));
    proof {
        reveal_strlit("");
        reveal_strlit("{{OG_TITLE}}");
        reveal_strlit("{{OG_TITLE_ESCAPED}}");
        reveal_strlit("{{OG_DESCRIPTION_ESCAPED}}");
        reveal_strlit("{{META_DESCRIPTION_TAG}}");
        reveal_strlit("{{OG_IMAGE_TAG}}");
        reveal_strlit("{{JSON_LD}}");
        reveal_strlit("{{BACKGROUND_CSS}}");
        reveal_strlit("{{SURFACE}}");
        reveal_strlit("{{SURFACE_MUTED}}");
        reveal_strlit("{{TEXT}}");
        reveal_strlit("{{TEXT_MUTED}}");
        reveal_strlit("{{BORDER}}");
        reveal_strlit("{{PRIMARY}}");
        reveal_strlit("{{PRIMARY_TEXT}}");
        reveal_strlit("{{SECONDARY}}");
        reveal_strlit("{{ACCENT}}");
        reveal_strlit("{{SUCCESS}}");
        reveal_strlit("{{WARNING}}");
        reveal_strlit("{{DANGER}}");
        reveal_strlit("{{RADIUS}}");
        reveal_strlit("{{SHADOW_CSS}}");
        reveal_strlit("{{CARD_SURFACE}}");
        reveal_strlit("{{HEADING_FONT}}");
        reveal_strlit("{{BODY_FONT}}");
        reveal_strlit("{{MONO_FONT}}");
        reveal_strlit("{{HEADING_SIZE}}");
        reveal_strlit("{{BODY_SIZE}}");
        reveal_strlit("{{BADGE_HTML}}");
        reveal_strlit("{{LOGO_HTML}}");
        reveal_strlit("{{ICON_BLOCK}}");
        reveal_strlit("{{TAGLINE_HTML}}");
        reveal_strlit("{{HEADLINE}}");
        reveal_strlit("{{SUBHEADLINE}}");
        reveal_strlit("{{BUTTON_CLASS}}");
        reveal_strlit("{{DEFAULT_CTA}}");
        reveal_strlit("{{FOOTER_HTML}}");
        reveal_strlit("{{HERO_IMAGE_HTML}}");
        reveal_strlit("{{AGENT_PANEL}}");
        reveal_strlit("{{PLATFORM_JS}}");
        reveal_strlit("{{STORE_URL_JS}}");
        reveal_strlit("{{WEB_URL_JS}}");
        reveal_strlit("{{BRAND_NAME}}");
        assert(pair_views(pairs@) =~= landing_pairs(*ctx, crate::jsonld::json_ld_of(*ctx), primary_text@));
        assert forall|i: int| 0 <= i < pairs@.len() implies (#[trigger] pairs@[i]).0@.len() > 0 by {
            assert(pair_views(pairs@)[i].0 == landing_pairs(*ctx, crate::jsonld::json_ld_of(*ctx), primary_text@)[i].0);
        }
    }
    render_template(template, &pairs)
}

/// The schema.org action type of a creator's action word.
pub open spec fn schema_action_type(action: Seq<char>) -> Seq<char> {
    if action == "buy"@ || action == "purchase"@ {
        "BuyAction"@
    } else if action == "reserve"@ || action == "book"@ {
        "ReserveAction"@
    } else if action == "watch"@ {
        "WatchAction"@
    } else if action == "play"@ {
        "PlayAction"@
    } else if action == "read"@ {
        "ReadAction"@
    } else if action == "download"@ || action == "install"@ {
        "DownloadAction"@
    } else {
        "ViewAction"@
    }
}

/// The schema.org action type of a creator's action word; `ViewAction` for
/// any word it does not know.
pub fn action_to_schema_type(action: &str) -> (r: &'static str)
    ensures
        r@ == schema_action_type(action@),
{
    if str_eq(action, "buy") || str_eq(action, "purchase") {
        "BuyAction"
    } else if str_eq(action, "reserve") || str_eq(action, "book") {
        "ReserveAction"
    } else if str_eq(action, "watch") {
        "WatchAction"
    } else if str_eq(action, "play") {
        "PlayAction"
    } else if str_eq(action, "read") {
        "ReadAction"
    } else if str_eq(action, "download") || str_eq(action, "install") {
        "DownloadAction"
    } else {
        "ViewAction"
    }
}

} // verus!
