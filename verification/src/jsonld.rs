//! The schema.org JSON-LD block of the landing page: the link's action,
//! where it can be opened, what it is about and who provides it.
//!
//! String values are written as JSON string literals by `serde_json`; the
//! document around them is laid out here, members in the order they are
//! added: `@context`, `@type`, `name`, `description`, `target`, `object`,
//! `provider`.

use vstd::prelude::*;
use crate::config::opt_view;
use crate::text::{to_owned, push_str, replace, replace_str, contains, matches_at};
use crate::render::{LandingPageContext, action_to_schema_type, schema_action_type, has_agent_hints, opt_str};
use crate::links::{AgentContext, Link};

verus! {

/// What `serde_json::to_string` writes for a string: its JSON string
/// literal, quotes and escapes included.
pub uninterp spec fn json_string_literal(s: Seq<char>) -> Seq<char>;

/// `serde_json::to_string` on a string slice. Serialising a `str` into
/// memory cannot fail, so the result is always the literal; the contract
/// claims nothing else of it.
#[verifier::external_body]
fn json_quote(s: &str) -> (r: String)
    ensures
        r@ == json_string_literal(s@),
{
    match serde_json::to_string(s) {
        Ok(t) => t,
        Err(_) => String::new(),
    }
}

/// The pieces of the JSON-LD action, string values already written as
/// JSON literals.
#[derive(Clone, Debug)]
pub struct JsonLdParts {
    /// The schema.org action type (`BuyAction`, `ViewAction`, ...).
    pub action_type: String,
    /// The literal of the call to action.
    pub name: Option<String>,
    /// The literal of the description.
    pub description: Option<String>,
    /// `(literal of the URL, platform IRI)` of each entry point.
    pub entry_points: Vec<(String, String)>,
    /// The literal of the previewed title.
    pub product_name: Option<String>,
    /// The literal of the previewed description.
    pub product_description: Option<String>,
    /// The literal of the provider's name.
    pub provider_name: String,
    /// The literal of the link's status.
    pub status: String,
    /// Whether the provider's domain is verified.
    pub verified: bool,
}

/// The spec-level value of [`JsonLdParts`].
pub struct JsonLdPartsView {
    pub action_type: Seq<char>,
    pub name: Option<Seq<char>>,
    pub description: Option<Seq<char>>,
    pub entry_points: Seq<(Seq<char>, Seq<char>)>,
    pub product_name: Option<Seq<char>>,
    pub product_description: Option<Seq<char>>,
    pub provider_name: Seq<char>,
    pub status: Seq<char>,
    pub verified: bool,
}

impl View for JsonLdParts {
    type V = JsonLdPartsView;

    open spec fn view(&self) -> JsonLdPartsView {
        JsonLdPartsView {
            action_type: self.action_type@,
            name: opt_view(&self.name),
            description: opt_view(&self.description),
            entry_points: self.entry_points@.map_values(|e: (String, String)| (e.0@, e.1@)),
            product_name: opt_view(&self.product_name),
            product_description: opt_view(&self.product_description),
            provider_name: self.provider_name@,
            status: self.status@,
            verified: self.verified,
        }
    }
}

/// A member `,"key":value` when the value is present.
pub open spec fn opt_member(key_prefix: Seq<char>, value: Option<Seq<char>>) -> Seq<char> {
    match value {
        Some(v) => key_prefix + v,
        None => Seq::empty(),
    }
}

/// One entry point object.
pub open spec fn entry_point_text(e: (Seq<char>, Seq<char>)) -> Seq<char> {
    "{\"@type\":\"EntryPoint\",\"urlTemplate\":"@ + e.0 + ",\"actionPlatform\":\""@ + e.1 + "\"}"@
}

/// The entry point objects, comma-separated.
pub open spec fn entry_points_text(eps: Seq<(Seq<char>, Seq<char>)>) -> Seq<char>
    decreases eps.len(),
{
    if eps.len() == 0 {
        Seq::empty()
    } else if eps.len() == 1 {
        entry_point_text(eps[0])
    } else {
        entry_points_text(eps.drop_last()) + ","@ + entry_point_text(eps.last())
    }
}

/// The `target` member, when there is an entry point.
pub open spec fn target_text(eps: Seq<(Seq<char>, Seq<char>)>) -> Seq<char> {
    if eps.len() == 0 {
        Seq::empty()
    } else {
        ",\"target\":["@ + entry_points_text(eps) + "]"@
    }
}

/// The `object` member, when a title or description is previewed.
pub open spec fn product_text(name: Option<Seq<char>>, description: Option<Seq<char>>) -> Seq<char> {
    if name is Some || description is Some {
        ",\"object\":{\"@type\":\"Product\""@ + opt_member(",\"name\":"@, name) + opt_member(
            ",\"description\":"@,
            description,
        ) + "}"@
    } else {
        Seq::empty()
    }
}

/// The `provider` member: the organisation with the link's status and
/// whether its domain is verified.
pub open spec fn provider_text(name: Seq<char>, status: Seq<char>, verified: bool) -> Seq<char> {
    ",\"provider\":{\"@type\":\"Organization\",\"name\":"@ + name
        + ",\"additionalProperty\":[{\"@type\":\"PropertyValue\",\"name\":\"status\",\"value\":"@
        + status + "},{\"@type\":\"PropertyValue\",\"name\":\"verified\",\"value\":"@ + (if verified {
        "true"@
    } else {
        "false"@
    }) + "}]}"@
}

/// The whole JSON-LD action object.
pub open spec fn action_text(p: JsonLdPartsView) -> Seq<char> {
    "{\"@context\":\"https://schema.org\",\"@type\":\""@ + p.action_type + "\""@ + opt_member(
        ",\"name\":"@,
        p.name,
    ) + opt_member(",\"description\":"@, p.description) + target_text(p.entry_points)
        + product_text(p.product_name, p.product_description) + provider_text(
        p.provider_name,
        p.status,
        p.verified,
    ) + "}"@
}

/// The script element holding a JSON document, with every `</` written
/// `<\/` so the document cannot close the element early.
pub open spec fn script_text(json: Seq<char>) -> Seq<char> {
    "    <script type=\"application/ld+json\">"@ + replace(json, "</"@, "<\\/"@) + "</script>"@
}

fn push_opt_member(out: &mut String, key_prefix: &str, value: &Option<String>)
    ensures
        final(out)@ == old(out)@ + opt_member(key_prefix@, opt_view(value)),
{
    match value {
        Some(v) => {
            let ghost before = out@;
            push_str(out, key_prefix);
            push_str(out, v.as_str());
            assert(out@ =~= before + (key_prefix@ + v@));
        },
        None => {
            assert(out@ =~= old(out)@ + Seq::<char>::empty());
        },
    }
}

fn push_entry_point(out: &mut String, e: &(String, String))
    ensures
        final(out)@ == old(out)@ + entry_point_text((e.0@, e.1@)),
{
    push_str(out, "{\"@type\":\"EntryPoint\",\"urlTemplate\":");
    push_str(out, e.0.as_str());
    push_str(out, ",\"actionPlatform\":\"");
    push_str(out, e.1.as_str());
    push_str(out, "\"}");
}

/// Write the action object of `parts`.
pub fn action_json(parts: &JsonLdParts) -> (r: String)
    ensures
        r@ == action_text(parts@),
{
    let ghost eps = parts@.entry_points;
    let mut out = to_owned("{\"@context\":\"https://schema.org\",\"@type\":\"");
    push_str(&mut out, parts.action_type.as_str());
    push_str(&mut out, "\"");
    push_opt_member(&mut out, ",\"name\":", &parts.name);
    push_opt_member(&mut out, ",\"description\":", &parts.description);
    let ghost before_target = out@;
    let n = parts.entry_points.len();
    if n > 0 {
        push_str(&mut out, ",\"target\":[");
        let ghost start = out@;
        assert(eps.take(0) =~= Seq::<(Seq<char>, Seq<char>)>::empty());
        assert(out@ =~= start + entry_points_text(eps.take(0)));
        let mut i: usize = 0;
        while i < n
            invariant
                i <= n,
                n == parts.entry_points@.len(),
                eps == parts@.entry_points,
                out@ == start + entry_points_text(eps.take(i as int)),
            decreases n - i,
        {
            let ghost prev = out@;
            if i > 0 {
                push_str(&mut out, ",");
            }
            push_entry_point(&mut out, &parts.entry_points[i]);
            proof {
                let t = eps.take(i as int + 1);
                assert(t.drop_last() =~= eps.take(i as int));
                assert(t.last() == eps[i as int]);
                assert(eps[i as int] == (parts.entry_points@[i as int].0@, parts.entry_points@[i as int].1@));
                if i == 0 {
                    assert(t.len() == 1 && t[0] == eps[0]);
                    assert(out@ =~= start + entry_points_text(t));
                } else {
                    assert(out@ =~= start + (entry_points_text(t.drop_last()) + ","@ + entry_point_text(t.last())));
                }
            }
            i = i + 1;
        }
        assert(eps.take(n as int) =~= eps);
        push_str(&mut out, "]");
        assert(out@ =~= before_target + (",\"target\":["@ + entry_points_text(eps) + "]"@));
    } else {
        assert(out@ =~= before_target + Seq::<char>::empty());
    }
    assert(out@ == before_target + target_text(eps));
    let ghost before_product = out@;
    if parts.product_name.is_some() || parts.product_description.is_some() {
        push_str(&mut out, ",\"object\":{\"@type\":\"Product\"");
        push_opt_member(&mut out, ",\"name\":", &parts.product_name);
        push_opt_member(&mut out, ",\"description\":", &parts.product_description);
        push_str(&mut out, "}");
    }
    assert(out@ == before_product + product_text(parts@.product_name, parts@.product_description));
    let ghost before_provider = out@;
    push_str(&mut out, ",\"provider\":{\"@type\":\"Organization\",\"name\":");
    push_str(&mut out, parts.provider_name.as_str());
    push_str(
        &mut out,
        ",\"additionalProperty\":[{\"@type\":\"PropertyValue\",\"name\":\"status\",\"value\":",
    );
    push_str(&mut out, parts.status.as_str());
    push_str(&mut out, "},{\"@type\":\"PropertyValue\",\"name\":\"verified\",\"value\":");
    if parts.verified {
        push_str(&mut out, "true");
    } else {
        push_str(&mut out, "false");
    }
    push_str(&mut out, "}]}");
    assert(out@ == before_provider + provider_text(
        parts@.provider_name,
        parts@.status,
        parts@.verified,
    ));
    push_str(&mut out, "}");
    out
}

/// The JSON-LD script element of `parts`.
pub fn json_ld_script(parts: &JsonLdParts) -> (r: String)
    ensures
        r@ == script_text(action_text(parts@)),
{
    let json = action_json(parts);
    proof {
        reveal_strlit("</");
    }
    let safe = replace_str(json.as_str(), "</", "<\\/");
    let mut out = to_owned("    <script type=\"application/ld+json\">");
    push_str(&mut out, safe.as_str());
    push_str(&mut out, "</script>");
    out
}

/// No `<` in `s` is directly followed by `/`.
pub open spec fn no_tag_close(s: Seq<char>) -> bool {
    forall|i: int| 0 <= i < s.len() - 1 ==> !(#[trigger] s[i] == '<' && s[i + 1] == '/')
}

/// Writing every `</` as `<\/` leaves no `</`, and keeps the first
/// character.
proof fn lemma_escape_close_tags(s: Seq<char>)
    ensures
        no_tag_close(replace(s, "</"@, "<\\/"@)),
        s.len() == 0 ==> replace(s, "</"@, "<\\/"@).len() == 0,
        s.len() > 0 ==> replace(s, "</"@, "<\\/"@).len() > 0 && replace(s, "</"@, "<\\/"@)[0] == s[0],
    decreases s.len(),
{
    reveal_strlit("</");
    reveal_strlit("<\\/");
    let from = "</"@;
    let to = "<\\/"@;
    let r = replace(s, from, to);
    if s.len() < 2 {
        assert(r == s);
    } else if matches_at(s, from, 0) {
        let t = s.skip(2);
        lemma_escape_close_tags(t);
        let rt = replace(t, from, to);
        assert(r == to + rt);
        assert forall|i: int| 0 <= i < r.len() - 1 implies !(#[trigger] r[i] == '<' && r[i + 1] == '/') by {
            if i >= 3 {
                assert(r[i] == rt[i - 3] && r[i + 1] == rt[i - 2]);
            } else if i == 2 {
                assert(r[i] == '/');
            } else {
                assert(r[i + 1] == to[i + 1]);
            }
        }
        assert(s[0int + 0int] == from[0]);
        assert(r[0] == to[0]);
    } else {
        let t = s.drop_first();
        lemma_escape_close_tags(t);
        let rt = replace(t, from, to);
        assert(r == seq![s[0]] + rt);
        assert forall|i: int| 0 <= i < r.len() - 1 implies !(#[trigger] r[i] == '<' && r[i + 1] == '/') by {
            if i >= 1 {
                assert(r[i] == rt[i - 1] && r[i + 1] == rt[i]);
            } else {
                assert(r[1] == rt[0] && rt[0] == t[0] && t[0] == s[1]);
                if s[0] == '<' && s[1] == '/' {
                    assert forall|k: int| 0 <= k < from.len() implies s[0 + k] == from[k] by {}
                    assert(matches_at(s, from, 0));
                }
            }
        }
    }
}

/// A string without `<` followed by `/` does not contain `</`.
proof fn lemma_no_tag_close_contains(s: Seq<char>)
    requires
        no_tag_close(s),
    ensures
        !contains(s, "</"@),
{
    reveal_strlit("</");
    if contains(s, "</"@) {
        let i = choose|i: int| #[trigger] matches_at(s, "</"@, i);
        assert(s[i + 0] == "</"@[0] && s[i + 1] == "</"@[1]);
    }
}

/// The JSON-LD block of a landing page is there exactly when the creator
/// gave an action, a call to action or a description; it is then the
/// action inside a `application/ld+json` script element whose body holds
/// no `</`, so no text of the link can close the element early.
pub proof fn lemma_json_ld_block_is_safe(ctx: LandingPageContext)
    ensures
        (json_ld_of(ctx).len() > 0) <==> has_agent_hints(
            match ctx.agent_context {
                Some(a) => Some(*a),
                None => None,
            },
        ),
        has_agent_hints(
            match ctx.agent_context {
                Some(a) => Some(*a),
                None => None,
            },
        ) ==> json_ld_of(ctx) == "    <script type=\"application/ld+json\">"@ + replace(
            action_text(json_ld_parts_of(ctx)),
            "</"@,
            "<\\/"@,
        ) + "</script>"@ && !contains(
            replace(action_text(json_ld_parts_of(ctx)), "</"@, "<\\/"@),
            "</"@,
        ),
{
    let body = replace(action_text(json_ld_parts_of(ctx)), "</"@, "<\\/"@);
    lemma_escape_close_tags(action_text(json_ld_parts_of(ctx)));
    lemma_no_tag_close_contains(body);
    reveal_strlit("</script>");
}

/// The JSON literal of an optional string.
pub open spec fn opt_literal(o: Option<Seq<char>>) -> Option<Seq<char>> {
    match o {
        Some(s) => Some(json_string_literal(s)),
        None => None,
    }
}

/// An entry point when the destination is set.
pub open spec fn opt_entry(url: Option<Seq<char>>, platform: Seq<char>) -> Seq<(Seq<char>, Seq<char>)> {
    match url {
        Some(u) => seq![(json_string_literal(u), platform)],
        None => Seq::empty(),
    }
}

/// The parts of the JSON-LD action: the action type, the creator's call to
/// action and description, the link's deep links and web URL as entry
/// points, the previewed title and description, and the provider.
pub open spec fn json_ld_parts(
    action_type: Seq<char>,
    ac: AgentContext,
    link: Link,
    preview_title: Option<Seq<char>>,
    preview_description: Option<Seq<char>>,
    status: Seq<char>,
    tenant_domain: Option<Seq<char>>,
    verified: bool,
) -> JsonLdPartsView {
    JsonLdPartsView {
        action_type,
        name: opt_literal(opt_view(&ac.cta)),
        description: opt_literal(opt_view(&ac.description)),
        entry_points: opt_entry(opt_view(&link.ios_deep_link), "http://schema.org/IOSPlatform"@)
            + opt_entry(opt_view(&link.android_deep_link), "http://schema.org/AndroidPlatform"@)
            + opt_entry(opt_view(&link.web_url), "http://schema.org/DesktopWebPlatform"@),
        product_name: opt_literal(preview_title),
        product_description: opt_literal(preview_description),
        provider_name: json_string_literal(
            match tenant_domain {
                Some(d) => d,
                None => "unknown"@,
            },
        ),
        status: json_string_literal(status),
        verified,
    }
}

/// The parts of the JSON-LD action of a landing page that has agent hints.
pub open spec fn json_ld_parts_of(ctx: LandingPageContext) -> JsonLdPartsView {
    let ac = ctx.agent_context->0;
    json_ld_parts(
        match opt_view(&ac.action) {
            Some(a) => schema_action_type(a),
            None => "ViewAction"@,
        },
        *ac,
        *ctx.link,
        opt_str(ctx.meta_title),
        opt_str(ctx.meta_description),
        ctx.link_status@,
        opt_str(ctx.tenant_domain),
        ctx.tenant_verified,
    )
}

/// The JSON-LD block of a landing page: empty unless the creator gave an
/// action, a call to action or a description.
pub open spec fn json_ld_of(ctx: LandingPageContext) -> Seq<char> {
    if has_agent_hints(
        match ctx.agent_context {
            Some(a) => Some(*a),
            None => None,
        },
    ) {
        script_text(action_text(json_ld_parts_of(ctx)))
    } else {
        Seq::empty()
    }
}

fn quote_opt(o: &Option<String>) -> (r: Option<String>)
    ensures
        opt_view(&r) == opt_literal(opt_view(o)),
{
    match o {
        Some(s) => Some(json_quote(s.as_str())),
        None => None,
    }
}

fn quote_opt_str(o: Option<&str>) -> (r: Option<String>)
    ensures
        opt_view(&r) == opt_literal(opt_str(o)),
{
    match o {
        Some(s) => Some(json_quote(s)),
        None => None,
    }
}

fn push_entry(v: &mut Vec<(String, String)>, url: &Option<String>, platform: &str)
    ensures
        final(v)@.map_values(|e: (String, String)| (e.0@, e.1@)) == old(v)@.map_values(
            |e: (String, String)| (e.0@, e.1@),
        ) + opt_entry(opt_view(url), platform@),
{
    let ghost before = v@;
    match url {
        Some(u) => {
            v.push((json_quote(u.as_str()), to_owned(platform)));
            assert(v@.map_values(|e: (String, String)| (e.0@, e.1@)) =~= before.map_values(
                |e: (String, String)| (e.0@, e.1@),
            ) + opt_entry(opt_view(url), platform@));
        },
        None => {
            assert(v@.map_values(|e: (String, String)| (e.0@, e.1@)) =~= before.map_values(
                |e: (String, String)| (e.0@, e.1@),
            ) + opt_entry(opt_view(url), platform@));
        },
    }
}

/// The JSON-LD script element of an action with the given type.
pub fn json_ld_block(
    action_type: &str,
    ac: &AgentContext,
    link: &Link,
    preview_title: Option<&str>,
    preview_description: Option<&str>,
    status: &str,
    tenant_domain: Option<&str>,
    verified: bool,
) -> (r: String)
    ensures
        r@ == script_text(
            action_text(
                json_ld_parts(
                    action_type@,
                    *ac,
                    *link,
                    opt_str(preview_title),
                    opt_str(preview_description),
                    status@,
                    opt_str(tenant_domain),
                    verified,
                ),
            ),
        ),
{
    let mut entry_points: Vec<(String, String)> = Vec::new();
    assert(entry_points@.map_values(|e: (String, String)| (e.0@, e.1@)) =~= Seq::<
        (Seq<char>, Seq<char>),
    >::empty());
    push_entry(&mut entry_points, &link.ios_deep_link, "http://schema.org/IOSPlatform");
    push_entry(&mut entry_points, &link.android_deep_link, "http://schema.org/AndroidPlatform");
    push_entry(&mut entry_points, &link.web_url, "http://schema.org/DesktopWebPlatform");
    let provider = match tenant_domain {
        Some(d) => json_quote(d),
        None => json_quote("unknown"),
    };
    let parts = JsonLdParts {
        action_type: to_owned(action_type),
        name: quote_opt(&ac.cta),
        description: quote_opt(&ac.description),
        entry_points,
        product_name: quote_opt_str(preview_title),
        product_description: quote_opt_str(preview_description),
        provider_name: provider,
        status: json_quote(status),
        verified,
    };
    json_ld_script(&parts)
}

/// Build the page's JSON-LD block.
pub fn build_json_ld(ctx: &LandingPageContext) -> (r: String)
    ensures
        r@ == json_ld_of(*ctx),
{
    let ac = match ctx.agent_context {
        Some(a) => a,
        None => return String::new(),
    };
    if ac.action.is_none() && ac.cta.is_none() && ac.description.is_none() {
        return String::new();
    }
    let action_type = match &ac.action {
        Some(a) => action_to_schema_type(a.as_str()),
        None => "ViewAction",
    };
    json_ld_block(
        action_type,
        ac,
        ctx.link,
        ctx.meta_title,
        ctx.meta_description,
        ctx.link_status,
        ctx.tenant_domain,
        ctx.tenant_verified,
    )
}

} // verus!
