//! Threat intelligence: known malware URLs and phishing domains, loaded from
//! free text feeds, and the check of a link destination against them.
//!
//! URLs are compared in a normal form (trimmed, lower-cased, without
//! fragment or trailing slashes); hosts are checked themselves and through
//! each parent domain above them (but not the bare top-level label).

use vstd::prelude::*;
use crate::text::{
    chars_of, index_of, lemma_index_of, lemma_index_of_unique, push_chars, str_eq, to_lowercase,
    to_owned, trim, trim_str, unicode_lowercase, concat2, concat3, push_str,
};
use crate::landing::{trim_end_char, trim_end_matches_char};
use crate::weburl::{parse_url, url_parse};

verus! {

// ── Normal form of URLs ──

/// The normal form of a URL: trimmed, lower-cased, cut at the first `#`,
/// without trailing slashes.
pub open spec fn normal_url(url: Seq<char>) -> Seq<char> {
    let s = unicode_lowercase(trim(url));
    trim_end_char(s.take(index_of(s, '#')), '/')
}

/// Bring a URL into its normal form.
pub fn normalize_url(url: &str) -> (r: String)
    ensures
        r@ == normal_url(url@),
{
    let t = trim_str(url);
    let s = to_lowercase(t.as_str());
    let v = chars_of(s.as_str());
    let mut i: usize = 0;
    while i < v.len() && v[i] != '#'
        invariant
            i <= v@.len(),
            forall|k: int| 0 <= k < i ==> v@[k] != '#',
        decreases v@.len() - i,
    {
        i = i + 1;
    }
    proof {
        if i < v.len() {
        }
        lemma_index_of_unique(v@, '#', i as int);
    }
    let mut cut = String::new();
    push_chars(&mut cut, &v, 0, i);
    assert(cut@ =~= s@.take(i as int));
    trim_end_matches_char(cut.as_str(), '/')
}

// ── Feeds ──

/// The lines of a text (`str::lines`): split at `\n`, a `\r` before it
/// dropped, no empty line after a final line ending.
pub open spec fn lines_of(s: Seq<char>) -> Seq<Seq<char>>
    decreases s.len(),
{
    if s.len() == 0 {
        Seq::empty()
    } else {
        let i = index_of(s, '\n');
        if 0 <= i < s.len() {
            proof {
                lemma_index_of(s, '\n');
            }
            let line = s.take(i);
            let line2 = if line.len() > 0 && line.last() == '\r' {
                line.drop_last()
            } else {
                line
            };
            seq![line2] + lines_of(s.skip(i + 1))
        } else {
            seq![s]
        }
    }
}

/// The entry a URLhaus line contributes, if any: comments and blank lines
/// contribute nothing; other lines their normal form, when not empty.
pub open spec fn urlhaus_entry(line: Seq<char>) -> Option<Seq<char>> {
    if line.len() == 0 || line[0] == '#' {
        None
    } else {
        let n = normal_url(trim(line));
        if n.len() > 0 {
            Some(n)
        } else {
            None
        }
    }
}

/// The entry a phishing-domain line contributes, if any: the trimmed,
/// lower-cased domain, when not empty.
pub open spec fn phishing_entry(line: Seq<char>) -> Option<Seq<char>> {
    if line.len() == 0 {
        None
    } else {
        let d = unicode_lowercase(trim(line));
        if d.len() > 0 {
            Some(d)
        } else {
            None
        }
    }
}

/// The views of a list of strings.
pub open spec fn string_views(v: Seq<String>) -> Seq<Seq<char>> {
    v.map_values(|s: String| s@)
}

/// No string occurs twice.
pub open spec fn no_duplicates(v: Seq<Seq<char>>) -> bool {
    forall|i: int, j: int| 0 <= i < j < v.len() ==> v[i] != v[j]
}

/// `x` is an entry of some line of `lines` under `entry`.
pub open spec fn is_feed_entry(lines: Seq<Seq<char>>, entry: spec_fn(Seq<char>) -> Option<Seq<char>>, x: Seq<char>) -> bool {
    exists|i: int| 0 <= i < lines.len() && #[trigger] entry(lines[i]) == Some(x)
}

fn contains_string(v: &Vec<String>, s: &str) -> (r: bool)
    ensures
        r == string_views(v@).contains(s@),
{
    let mut i: usize = 0;
    while i < v.len()
        invariant
            i <= v@.len(),
            forall|k: int| 0 <= k < i ==> v@[k]@ != s@,
        decreases v@.len() - i,
    {
        if str_eq(v[i].as_str(), s) {
            assert(string_views(v@)[i as int] == s@);
            return true;
        }
        i = i + 1;
    }
    proof {
        if string_views(v@).contains(s@) {
            let k = choose|k: int| 0 <= k < string_views(v@).len() && string_views(v@)[k] == s@;
            assert(v@[k]@ == s@);
        }
    }
    false
}

fn push_unique(v: &mut Vec<String>, s: String)
    requires
        no_duplicates(string_views(old(v)@)),
    ensures
        no_duplicates(string_views(final(v)@)),
        forall|x: Seq<char>| string_views(final(v)@).contains(x) <==> (string_views(old(v)@).contains(x) || x == s@),
{
    if !contains_string(v, s.as_str()) {
        let ghost before = v@;
        let ghost sv = s@;
        v.push(s);
        proof {
            assert(string_views(v@) =~= string_views(before).push(sv));
            assert forall|x: Seq<char>| string_views(v@).contains(x) <==> (string_views(before).contains(x) || x == sv) by {
                if string_views(before).contains(x) {
                    let k = choose|k: int| 0 <= k < string_views(before).len() && string_views(before)[k] == x;
                    assert(string_views(v@)[k] == x);
                }
                if x == sv {
                    assert(string_views(v@)[string_views(v@).len() - 1] == x);
                }
                if string_views(v@).contains(x) {
                    let k = choose|k: int| 0 <= k < string_views(v@).len() && string_views(v@)[k] == x;
                    if k < string_views(before).len() {
                        assert(string_views(before)[k] == x);
                    }
                }
            }
        }
    }
}

/// One line of a feed and where the next begins, for `lines_of`.
fn next_line(v: &Vec<char>, start: usize) -> (r: (String, usize))
    requires
        start < v@.len(),
    ensures
        start < r.1 <= v@.len(),
        lines_of(v@.skip(start as int)) == seq![r.0@] + lines_of(v@.skip(r.1 as int)),
{
    let ghost s = v@.skip(start as int);
    let mut end = start;
    while end < v.len() && v[end] != '\n'
        invariant
            start <= end <= v@.len(),
            forall|k: int| start <= k < end ==> v@[k] != '\n',
        decreases v@.len() - end,
    {
        end = end + 1;
    }
    proof {
        assert forall|k: int| 0 <= k < end - start implies s[k] != '\n' by {
            assert(s[k] == v@[start + k]);
        }
        if end < v.len() {
            assert(s[end - start] == v@[end as int]);
        }
        lemma_index_of_unique(s, '\n', end - start);
        assert(s.take(end - start) =~= v@.subrange(start as int, end as int));
    }
    let line_end = if end < v.len() && end > start && v[end - 1] == '\r' {
        end - 1
    } else {
        end
    };
    let mut line = String::new();
    push_chars(&mut line, v, start, line_end);
    if end < v.len() {
        proof {
            assert(s.skip(end - start + 1) =~= v@.skip(end + 1));
            assert(line@ =~= (if v@.subrange(start as int, end as int).len() > 0
                && v@.subrange(start as int, end as int).last() == '\r' {
                v@.subrange(start as int, end as int).drop_last()
            } else {
                v@.subrange(start as int, end as int)
            }));
        }
        (line, end + 1)
    } else {
        proof {
            assert(v@.skip(end as int) =~= Seq::<char>::empty());
            assert(line@ =~= s);
            assert(lines_of(v@.skip(end as int)) =~= Seq::<Seq<char>>::empty());
            assert(seq![line@] + Seq::<Seq<char>>::empty() =~= seq![line@]);
        }
        (line, end)
    }
}

fn urlhaus_line(line: &str) -> (r: Option<String>)
    ensures
        match r {
            Some(x) => urlhaus_entry(line@) == Some(x@),
            None => urlhaus_entry(line@) is None,
        },
{
    let v = chars_of(line);
    if v.len() == 0 || v[0] == '#' {
        return None;
    }
    let t = trim_str(line);
    let n = normalize_url(t.as_str());
    if n.unicode_len() > 0 {
        Some(n)
    } else {
        None
    }
}

fn phishing_line(line: &str) -> (r: Option<String>)
    ensures
        match r {
            Some(x) => phishing_entry(line@) == Some(x@),
            None => phishing_entry(line@) is None,
        },
{
    if line.unicode_len() == 0 {
        return None;
    }
    let t = trim_str(line);
    let d = to_lowercase(t.as_str());
    if d.unicode_len() > 0 {
        Some(d)
    } else {
        None
    }
}

/// Which feed a text is.
#[derive(Clone, Copy, Debug, PartialEq, Eq, Structural)]
pub enum FeedKind {
    /// URLhaus: one URL per line, `#` comments.
    Urlhaus,
    /// Phishing.Database: one domain per line.
    PhishingDomains,
}

/// The entry function of a feed.
pub open spec fn feed_entry(kind: FeedKind) -> spec_fn(Seq<char>) -> Option<Seq<char>> {
    match kind {
        FeedKind::Urlhaus => |l: Seq<char>| urlhaus_entry(l),
        FeedKind::PhishingDomains => |l: Seq<char>| phishing_entry(l),
    }
}

/// The distinct entries of a feed text.
pub fn parse_feed(text: &str, kind: FeedKind) -> (r: Vec<String>)
    ensures
        no_duplicates(string_views(r@)),
        forall|x: Seq<char>| string_views(r@).contains(x) <==> is_feed_entry(
            lines_of(text@),
            feed_entry(kind),
            x,
        ),
{
    let v = chars_of(text);
    let mut out: Vec<String> = Vec::new();
    let mut start: usize = 0;
    let ghost all = lines_of(text@);
    let ghost mut done: Seq<Seq<char>> = Seq::empty();
    assert(v@.skip(0) =~= v@);
    while start < v.len()
        invariant
            start <= v@.len(),
            v@ == text@,
            all == done + lines_of(v@.skip(start as int)),
            no_duplicates(string_views(out@)),
            forall|x: Seq<char>| string_views(out@).contains(x) <==> is_feed_entry(
                done,
                feed_entry(kind),
                x,
            ),
        decreases v@.len() - start,
    {
        let (line, next) = next_line(&v, start);
        let entry = match kind {
            FeedKind::Urlhaus => urlhaus_line(line.as_str()),
            FeedKind::PhishingDomains => phishing_line(line.as_str()),
        };
        assert(entry matches Some(e) ==> (feed_entry(kind))(line@) == Some(e@));
        assert(entry is None ==> (feed_entry(kind))(line@) is None);
        let ghost done2 = done.push(line@);
        proof {
            assert(all == done2 + lines_of(v@.skip(next as int))) by {
                assert(done + (seq![line@] + lines_of(v@.skip(next as int))) =~= done2 + lines_of(
                    v@.skip(next as int),
                ));
            }
        }
        let ghost before = out@;
        if let Some(e) = entry {
            push_unique(&mut out, e);
        }
        proof {
            assert forall|x: Seq<char>| string_views(out@).contains(x) <==> is_feed_entry(
                done2,
                feed_entry(kind),
                x,
            ) by {
                if is_feed_entry(done2, feed_entry(kind), x) {
                    let i = choose|i: int| 0 <= i < done2.len() && #[trigger] (feed_entry(kind))(done2[i]) == Some(x);
                    if i < done.len() {
                        assert(done2[i] == done[i]);
                        assert(is_feed_entry(done, feed_entry(kind), x));
                    }
                }
                if is_feed_entry(done, feed_entry(kind), x) {
                    let i = choose|i: int| 0 <= i < done.len() && #[trigger] (feed_entry(kind))(done[i]) == Some(x);
                    assert(done2[i] == done[i]);
                }
                if entry matches Some(e) && x == e@ {
                    assert(done2[done.len() as int] == line@);
                }
            }
            done = done2;
        }
        start = next;
    }
    proof {
        assert(lines_of(v@.skip(start as int)) =~= Seq::<Seq<char>>::empty()) by {
            assert(v@.skip(start as int) =~= Seq::<char>::empty());
        }
        assert(done + Seq::<Seq<char>>::empty() =~= done);
    }
    out
}

// ── Checking a URL ──

/// The parent domains of a host that are checked: the host without its
/// first label, without its first two, and so on, stopping before the bare
/// last label.
pub open spec fn parent_domains(host: Seq<char>) -> Seq<Seq<char>>
    decreases host.len(),
{
    let i = index_of(host, '.');
    if 0 <= i < host.len() {
        proof {
            lemma_index_of(host, '.');
        }
        let rest = host.skip(i + 1);
        if index_of(rest, '.') < rest.len() {
            seq![rest] + parent_domains(rest)
        } else {
            Seq::empty()
        }
    } else {
        Seq::empty()
    }
}

/// The known threats: malware URLs in normal form and phishing domains in
/// lower case, each without duplicates.
pub struct ThreatSets {
    urls: Vec<String>,
    domains: Vec<String>,
}

/// The first parent domain (in the order of `parents`) that is listed.
pub open spec fn first_listed(parents: Seq<Seq<char>>, listed: Seq<Seq<char>>) -> Option<Seq<char>>
    decreases parents.len(),
{
    if parents.len() == 0 {
        None
    } else if listed.contains(parents[0]) {
        Some(parents[0])
    } else {
        first_listed(parents.drop_first(), listed)
    }
}

/// Why a URL is refused, if it is: its normal form is a known malware URL;
/// or its host, lower-cased, is a known phishing domain or lies under one.
pub open spec fn threat_verdict(
    urls: Seq<Seq<char>>,
    domains: Seq<Seq<char>>,
    raw_url: Seq<char>,
) -> Option<Seq<char>> {
    if urls.contains(normal_url(raw_url)) {
        Some("URL matches known malware feed: "@ + raw_url)
    } else {
        match url_parse(raw_url) {
            Ok(p) => match p.host_str {
                Some(h) => {
                    let host = unicode_lowercase(h);
                    if domains.contains(host) {
                        Some("Domain '"@ + host + "' is a known phishing domain"@)
                    } else {
                        match first_listed(parent_domains(host), domains) {
                            Some(parent) => Some(
                                "Domain '"@ + host + "' is a subdomain of known phishing domain '"@
                                    + parent + "'"@,
                            ),
                            None => None,
                        }
                    }
                },
                None => None,
            },
            Err(_) => None,
        }
    }
}

impl ThreatSets {
    /// Each list is free of duplicates.
    #[verifier::type_invariant]
    spec fn distinct(self) -> bool {
        no_duplicates(string_views(self.urls@)) && no_duplicates(string_views(self.domains@))
    }

    /// The known malware URLs.
    pub closed spec fn url_view(self) -> Seq<Seq<char>> {
        string_views(self.urls@)
    }

    /// The known phishing domains.
    pub closed spec fn domain_view(self) -> Seq<Seq<char>> {
        string_views(self.domains@)
    }

    /// No known threat.
    pub fn new() -> (r: Self)
        ensures
            r.url_view().len() == 0,
            r.domain_view().len() == 0,
    {
        let r = ThreatSets { urls: Vec::new(), domains: Vec::new() };
        assert(string_views(r.urls@) =~= Seq::<Seq<char>>::empty());
        assert(string_views(r.domains@) =~= Seq::<Seq<char>>::empty());
        r
    }

    /// Add a malware URL (in normal form).
    pub fn insert_url(&mut self, url: String)
        ensures
            forall|x: Seq<char>| final(self).url_view().contains(x) <==> (old(self).url_view().contains(x) || x == url@),
            final(self).domain_view() == old(self).domain_view(),
    {
        proof {
            use_type_invariant(&*self);
        }
        let mut urls = Vec::new();
        std::mem::swap(&mut urls, &mut self.urls);
        push_unique(&mut urls, url);
        self.urls = urls;
    }

    /// Add a phishing domain (lower-cased).
    pub fn insert_domain(&mut self, domain: String)
        ensures
            forall|x: Seq<char>| final(self).domain_view().contains(x) <==> (old(self).domain_view().contains(x) || x == domain@),
            final(self).url_view() == old(self).url_view(),
    {
        proof {
            use_type_invariant(&*self);
        }
        let mut domains = Vec::new();
        std::mem::swap(&mut domains, &mut self.domains);
        push_unique(&mut domains, domain);
        self.domains = domains;
    }

    /// Replace the feeds with freshly fetched ones. A feed that failed or
    /// came back empty leaves the current list in place.
    pub fn refresh_with(&mut self, urls: Option<Vec<String>>, domains: Option<Vec<String>>)
        requires
            urls matches Some(u) ==> no_duplicates(string_views(u@)),
            domains matches Some(d) ==> no_duplicates(string_views(d@)),
        ensures
            final(self).url_view() == (match urls {
                Some(u) if u@.len() > 0 => string_views(u@),
                _ => old(self).url_view(),
            }),
            final(self).domain_view() == (match domains {
                Some(d) if d@.len() > 0 => string_views(d@),
                _ => old(self).domain_view(),
            }),
    {
        proof {
            use_type_invariant(&*self);
        }
        if let Some(u) = urls {
            if u.len() > 0 {
                self.urls = u;
            }
        }
        if let Some(d) = domains {
            if d.len() > 0 {
                self.domains = d;
            }
        }
    }

    /// Check a URL against the known threats; `Some(reason)` when it matches.
    #[verifier::loop_isolation(false)]
    pub fn check_url(&self, raw_url: &str) -> (r: Option<String>)
        ensures
            match r {
                Some(reason) => threat_verdict(self.url_view(), self.domain_view(), raw_url@) == Some(
                    reason@,
                ),
                None => threat_verdict(self.url_view(), self.domain_view(), raw_url@) is None,
            },
    {
        let normalized = normalize_url(raw_url);
        if contains_string(&self.urls, normalized.as_str()) {
            return Some(concat2("URL matches known malware feed: ", raw_url));
        }
        let parsed = match parse_url(raw_url) {
            Ok(p) => p,
            Err(_) => return None,
        };
        let host = match &parsed.host_str {
            Some(h) => h,
            None => return None,
        };
        let host_lower = to_lowercase(host.as_str());
        if contains_string(&self.domains, host_lower.as_str()) {
            return Some(concat3("Domain '", host_lower.as_str(), "' is a known phishing domain"));
        }
        let parents = parent_domain_list(host_lower.as_str());
        let mut i: usize = 0;
        assert(string_views(parents@).skip(0) =~= string_views(parents@));
        while i < parents.len()
            invariant
                i <= parents@.len(),
                string_views(parents@) == parent_domains(host_lower@),
                first_listed(parent_domains(host_lower@), self.domain_view()) == first_listed(
                    string_views(parents@).skip(i as int),
                    self.domain_view(),
                ),
            decreases parents@.len() - i,
        {
            assert(string_views(parents@).skip(i as int)[0] == parents@[i as int]@);
            if contains_string(&self.domains, parents[i].as_str()) {
                let mut reason = concat3(
                    "Domain '",
                    host_lower.as_str(),
                    "' is a subdomain of known phishing domain '",
                );
                push_str(&mut reason, parents[i].as_str());
                push_str(&mut reason, "'");
                return Some(reason);
            }
            assert(string_views(parents@).skip(i as int).drop_first() =~= string_views(parents@).skip(
                i + 1,
            ));
            i = i + 1;
        }
        assert(string_views(parents@).skip(i as int) =~= Seq::<Seq<char>>::empty());
        None
    }
}

/// The parent domains of `host` that are checked, nearest first.
pub fn parent_domain_list(host: &str) -> (r: Vec<String>)
    ensures
        string_views(r@) == parent_domains(host@),
{
    let v = chars_of(host);
    let mut out: Vec<String> = Vec::new();
    let mut start: usize = 0;
    assert(v@.skip(0) =~= v@);
    assert(string_views(out@) + parent_domains(host@) =~= parent_domains(host@));
    loop
        invariant
            start <= v@.len(),
            v@ == host@,
            parent_domains(host@) == string_views(out@) + parent_domains(v@.skip(start as int)),
        decreases v@.len() - start,
    {
        let ghost s = v@.skip(start as int);
        let mut dot = start;
        while dot < v.len() && v[dot] != '.'
            invariant
                start <= dot <= v@.len(),
                forall|k: int| start <= k < dot ==> v@[k] != '.',
            decreases v@.len() - dot,
        {
            dot = dot + 1;
        }
        proof {
            assert forall|k: int| 0 <= k < dot - start implies s[k] != '.' by {
                assert(s[k] == v@[start + k]);
            }
            if dot < v.len() {
                assert(s[dot - start] == v@[dot as int]);
            }
            lemma_index_of_unique(s, '.', dot - start);
        }
        if dot == v.len() {
            assert(string_views(out@) + Seq::<Seq<char>>::empty() =~= string_views(out@));
            return out;
        }
        let rest_start = dot + 1;
        let ghost rest = s.skip(dot - start + 1);
        assert(rest =~= v@.skip(rest_start as int));
        let mut dot2 = rest_start;
        while dot2 < v.len() && v[dot2] != '.'
            invariant
                rest_start <= dot2 <= v@.len(),
                forall|k: int| rest_start <= k < dot2 ==> v@[k] != '.',
            decreases v@.len() - dot2,
        {
            dot2 = dot2 + 1;
        }
        proof {
            assert forall|k: int| 0 <= k < dot2 - rest_start implies rest[k] != '.' by {
                assert(rest[k] == v@[rest_start + k]);
            }
            if dot2 < v.len() {
                assert(rest[dot2 - rest_start] == v@[dot2 as int]);
            }
            lemma_index_of_unique(rest, '.', dot2 - rest_start);
        }
        if dot2 == v.len() {
            assert(string_views(out@) + Seq::<Seq<char>>::empty() =~= string_views(out@));
            return out;
        }
        let mut parent = String::new();
        push_chars(&mut parent, &v, rest_start, v.len());
        assert(parent@ =~= rest);
        let ghost before = string_views(out@);
        out.push(parent);
        assert(string_views(out@) =~= before.push(rest));
        assert(before + (seq![rest] + parent_domains(rest)) =~= string_views(out@) + parent_domains(rest));
        start = rest_start;
    }
}

/// Some listed parent makes the search for a listed parent succeed.
proof fn lemma_first_listed_finds(parents: Seq<Seq<char>>, listed: Seq<Seq<char>>, k: int)
    requires
        0 <= k < parents.len(),
        listed.contains(parents[k]),
    ensures
        first_listed(parents, listed) is Some,
    decreases parents.len(),
{
    if !listed.contains(parents[0]) {
        assert(k > 0);
        assert(parents.drop_first()[k - 1] == parents[k]);
        lemma_first_listed_finds(parents.drop_first(), listed, k - 1);
    }
}

/// A URL whose normal form is a known malware URL is refused.
pub proof fn lemma_listed_url_is_flagged(urls: Seq<Seq<char>>, domains: Seq<Seq<char>>, raw_url: Seq<char>)
    requires
        urls.contains(normal_url(raw_url)),
    ensures
        threat_verdict(urls, domains, raw_url) == Some("URL matches known malware feed: "@ + raw_url),
{
}

/// A URL whose host, lower-cased, is a known phishing domain or lies under
/// one of the checked parent domains is refused.
pub proof fn lemma_listed_domain_is_flagged(
    urls: Seq<Seq<char>>,
    domains: Seq<Seq<char>>,
    raw_url: Seq<char>,
    domain: Seq<char>,
)
    requires
        url_parse(raw_url) matches Ok(p) && p.host_str matches Some(h) && (domain == unicode_lowercase(h)
            || parent_domains(unicode_lowercase(h)).contains(domain)),
        domains.contains(domain),
    ensures
        threat_verdict(urls, domains, raw_url) is Some,
{
    let h = url_parse(raw_url)->Ok_0.host_str->0;
    let host = unicode_lowercase(h);
    if !urls.contains(normal_url(raw_url)) && !domains.contains(host) {
        let k = choose|k: int| 0 <= k < parent_domains(host).len() && parent_domains(host)[k] == domain;
        lemma_first_listed_finds(parent_domains(host), domains, k);
    }
}

/// A URL neither listed itself nor under a listed domain passes.
pub proof fn lemma_unlisted_url_passes(urls: Seq<Seq<char>>, domains: Seq<Seq<char>>, raw_url: Seq<char>)
    requires
        !urls.contains(normal_url(raw_url)),
        url_parse(raw_url) matches Ok(p) && p.host_str matches Some(h) ==> !domains.contains(
            unicode_lowercase(h),
        ) && forall|k: int|
            0 <= k < parent_domains(unicode_lowercase(h)).len() ==> !domains.contains(
                #[trigger] parent_domains(unicode_lowercase(h))[k],
            ),
    ensures
        threat_verdict(urls, domains, raw_url) is None,
{
    match url_parse(raw_url) {
        Ok(p) => match p.host_str {
            Some(h) => lemma_first_listed_none(parent_domains(unicode_lowercase(h)), domains),
            None => {},
        },
        Err(_) => {},
    }
}

/// No listed parent makes the search come back empty.
proof fn lemma_first_listed_none(parents: Seq<Seq<char>>, listed: Seq<Seq<char>>)
    requires
        forall|k: int| 0 <= k < parents.len() ==> !listed.contains(#[trigger] parents[k]),
    ensures
        first_listed(parents, listed) is None,
    decreases parents.len(),
{
    if parents.len() > 0 {
        assert(!listed.contains(parents[0]));
        assert forall|k: int| 0 <= k < parents.drop_first().len() implies !listed.contains(
            #[trigger] parents.drop_first()[k],
        ) by {
            assert(parents.drop_first()[k] == parents[k + 1]);
        }
        lemma_first_listed_none(parents.drop_first(), listed);
    }
}

} // verus!
