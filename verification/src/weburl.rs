//! The parts of a parsed URL that the validators read, and the trusted call
//! into the `url` crate that produces them.

use vstd::prelude::*;

verus! {

/// The host of a parsed URL, as the `url` crate classifies it.
pub enum UrlHost {
    /// A DNS domain (or, for non-special schemes, an opaque host).
    Domain(String),
    /// An IPv4 address, as its four octets.
    Ipv4([u8; 4]),
    /// An IPv6 address, as its 128-bit big-endian value.
    Ipv6(u128),
}

/// The spec-level value of a [`UrlHost`].
pub enum HostView {
    Domain(Seq<char>),
    Ipv4(Seq<u8>),
    Ipv6(u128),
}

impl View for UrlHost {
    type V = HostView;

    open spec fn view(&self) -> HostView {
        match self {
            UrlHost::Domain(d) => HostView::Domain(d@),
            UrlHost::Ipv4(o) => HostView::Ipv4(o@),
            UrlHost::Ipv6(v) => HostView::Ipv6(*v),
        }
    }
}

/// What the validators read of a successfully parsed URL.
pub struct ParsedUrl {
    /// `Url::scheme`.
    pub scheme: String,
    /// `Url::host_str`: the serialized host (IPv6 in brackets).
    pub host_str: Option<String>,
    /// `Url::host`.
    pub host: Option<UrlHost>,
}

/// The spec-level value of a [`ParsedUrl`].
pub struct ParsedUrlView {
    pub scheme: Seq<char>,
    pub host_str: Option<Seq<char>>,
    pub host: Option<HostView>,
}

impl View for ParsedUrl {
    type V = ParsedUrlView;

    open spec fn view(&self) -> ParsedUrlView {
        ParsedUrlView {
            scheme: self.scheme@,
            host_str: match self.host_str {
                Some(h) => Some(h@),
                None => None,
            },
            host: match self.host {
                Some(h) => Some(h@),
                None => None,
            },
        }
    }
}

/// What `url::Url::parse` gives for `input`: the parsed parts, or the text of
/// its `ParseError`.
pub uninterp spec fn url_parse(input: Seq<char>) -> Result<ParsedUrlView, Seq<char>>;

/// The view of a parse outcome.
pub open spec fn parse_outcome_view(r: Result<ParsedUrl, String>) -> Result<ParsedUrlView, Seq<char>> {
    match r {
        Ok(p) => Ok(p@),
        Err(e) => Err(e@),
    }
}

/// Calls `url::Url::parse(input)` and reads its scheme, `host_str` and
/// `host`; an error becomes its `Display` text. The contract claims only that
/// the outcome is the one named `url_parse(input)`, a function of `input`.
#[verifier::external_body]
pub(crate) fn parse_url(input: &str) -> (r: Result<ParsedUrl, String>)
    ensures
        parse_outcome_view(r) == url_parse(input@),
{
    match url::Url::parse(input) {
        Ok(u) => Ok(ParsedUrl {
            scheme: u.scheme().to_string(),
            host_str: u.host_str().map(|h| h.to_string()),
            host: match u.host() {
                None => None,
                Some(url::Host::Domain(d)) => Some(UrlHost::Domain(d.to_string())),
                Some(url::Host::Ipv4(a)) => Some(UrlHost::Ipv4(a.octets())),
                Some(url::Host::Ipv6(a)) => Some(UrlHost::Ipv6(u128::from(a))),
            },
        }),
        Err(e) => Err(e.to_string()),
    }
}

} // verus!
