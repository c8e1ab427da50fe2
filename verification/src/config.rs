//! Server configuration resolved from environment variables with defaults.

use vstd::prelude::*;
use crate::num::{decimal, parse_i64_str, parse_signed, parse_unsigned, parse_unsigned_str, u64_to_string};
use crate::text::{
    ascii_lower, concat2, starts_with, str_eq, str_starts_with, to_ascii_lowercase, to_owned,
    trim, trim_str,
};
use crate::weburl::{parse_url, url_parse, HostView, ParsedUrlView};

verus! {

/// `SameSite` attribute for the session cookie. Parsed from the
/// `COOKIE_SAMESITE` env var; unknown values fall back to `Lax`.
#[derive(Debug, Clone, Copy, PartialEq, Eq, Structural)]
pub enum CookieSameSite {
    Strict,
    Lax,
    /// `SameSite=None`: sent on every cross-site request.
    NoRestriction,
}

/// The value that `from_env_str` gives for `raw`.
pub open spec fn same_site_of(raw: Option<Seq<char>>) -> CookieSameSite {
    match raw {
        Some(r) => {
            let n = ascii_lower(trim(r));
            if n == "strict"@ {
                CookieSameSite::Strict
            } else if n == "none"@ {
                CookieSameSite::NoRestriction
            } else {
                CookieSameSite::Lax
            }
        },
        None => CookieSameSite::Lax,
    }
}

/// The `Set-Cookie` spelling of a `SameSite` value.
pub open spec fn same_site_text(s: CookieSameSite) -> Seq<char> {
    match s {
        CookieSameSite::Strict => "Strict"@,
        CookieSameSite::Lax => "Lax"@,
        CookieSameSite::NoRestriction => "None"@,
    }
}

impl CookieSameSite {
    /// Parse `COOKIE_SAMESITE`: trimmed and case-insensitive `strict` or
    /// `none`; anything else (or unset) is `Lax`.
    pub fn from_env_str(raw: Option<&str>) -> (r: Self)
        ensures
            r == same_site_of(match raw {
                Some(s) => Some(s@),
                None => None,
            }),
    {
        match raw {
            None => CookieSameSite::Lax,
            Some(s) => {
                let t = trim_str(s);
                let n = to_ascii_lowercase(t.as_str());
                if str_eq(n.as_str(), "strict") {
                    CookieSameSite::Strict
                } else if str_eq(n.as_str(), "none") {
                    CookieSameSite::NoRestriction
                } else {
                    CookieSameSite::Lax
                }
            },
        }
    }

    /// The attribute value the browser expects (title case).
    pub fn as_str(self) -> (r: &'static str)
        ensures
            r@ == same_site_text(self),
    {
        match self {
            CookieSameSite::Strict => "Strict",
            CookieSameSite::Lax => "Lax",
            CookieSameSite::NoRestriction => "None",
        }
    }
}

/// The cookie `Domain` that `resolve_cookie_domain` derives.
pub open spec fn cookie_domain_of(
    override_env: Option<Seq<char>>,
    parsed: Result<ParsedUrlView, Seq<char>>,
) -> Option<Seq<char>> {
    match override_env {
        Some(raw) => {
            let t = trim(raw);
            if t.len() == 0 {
                None
            } else if t[0] == '.' {
                Some(t)
            } else {
                Some(seq!['.'] + t)
            }
        },
        None => match parsed {
            Err(_) => None,
            Ok(p) => match p.host_str {
                None => None,
                Some(h) => match p.host {
                    Some(HostView::Ipv4(_)) => None,
                    Some(HostView::Ipv6(_)) => None,
                    _ => if h == "localhost"@ {
                        None
                    } else {
                        Some(seq!['.'] + h)
                    },
                },
            },
        },
    }
}

/// Resolve the cookie `Domain` attribute. An explicit `COOKIE_DOMAIN` wins
/// (trimmed, with a leading dot; empty disables it). Otherwise the marketing
/// URL's host with a leading dot, except for `localhost` and IP addresses,
/// which get no `Domain`.
pub fn resolve_cookie_domain(override_env: Option<&str>, marketing_url: &str) -> (r: Option<
    String,
>)
    ensures
        crate::config::opt_view(&r) == cookie_domain_of(
            match override_env {
                Some(s) => Some(s@),
                None => None,
            },
            url_parse(marketing_url@),
        ),
{
    if let Some(raw) = override_env {
        let t = trim_str(raw);
        if t.as_str().unicode_len() == 0 {
            return None;
        }
        if t.as_str().get_char(0) == '.' {
            return Some(t);
        }
        proof {
            reveal_strlit(".");
        }
        let r = concat2(".", t.as_str());
        assert(r@ =~= seq!['.'] + t@);
        return Some(r);
    }
    let parsed = match parse_url(marketing_url) {
        Ok(p) => p,
        Err(_) => {
            return None;
        },
    };
    let host = match &parsed.host_str {
        Some(h) => h,
        None => {
            return None;
        },
    };
    match &parsed.host {
        Some(crate::weburl::UrlHost::Ipv4(_)) => None,
        Some(crate::weburl::UrlHost::Ipv6(_)) => None,
        _ => {
            if str_eq(host.as_str(), "localhost") {
                None
            } else {
                proof {
                    reveal_strlit(".");
                }
                let r = concat2(".", host.as_str());
                assert(r@ =~= seq!['.'] + host@);
                Some(r)
            }
        },
    }
}

/// The view of an optional string.
pub open spec fn opt_view(o: &Option<String>) -> Option<Seq<char>> {
    match o {
        Some(s) => Some(s@),
        None => None,
    }
}

} // verus!

verus! {

/// Server configuration resolved from environment variables with defaults.
#[derive(Debug, Clone)]
pub struct Config {
    pub host: String,
    pub port: u16,
    pub mongo_uri: String,
    pub mongo_db: String,
    pub resend_api_key: String,
    pub resend_from_email: String,
    /// Public-facing URL of this API server.
    pub public_url: String,
    /// Public-facing URL of the marketing site; falls back to `public_url`.
    pub marketing_url: String,
    /// `Domain` attribute for the session cookie (see [`resolve_cookie_domain`]).
    pub cookie_domain: Option<String>,
    /// Whether the session cookie gets `Secure`: an `https://` marketing URL,
    /// or `SameSite=None` (which browsers reject without `Secure`).
    pub cookie_secure: bool,
    pub cookie_same_site: CookieSameSite,
    pub free_daily_limit: i64,
    pub sentry_dsn: String,
    pub environment: String,
    pub git_sha: String,
    pub x402_facilitator_url: String,
    pub x402_recipient: String,
    pub x402_price_display: String,
    pub x402_enabled: bool,
    pub cdp_api_key_id: String,
    pub cdp_api_key_secret: String,
    pub x402_description: String,
    pub primary_domain: String,
    pub fly_api_token: String,
    pub fly_app_name: String,
    pub stripe_secret_key: String,
    pub stripe_webhook_secret: String,
    pub stripe_price_id_pro: String,
    pub stripe_price_id_business: String,
    pub stripe_price_id_scale: String,
    pub stripe_success_url: String,
    pub stripe_cancel_url: String,
}

/// The value of the first variable called `name` in `vars`.
pub open spec fn env_lookup(vars: Seq<(String, String)>, name: Seq<char>) -> Option<Seq<char>>
    decreases vars.len(),
{
    if vars.len() == 0 {
        None
    } else if vars[0].0@ == name {
        Some(vars[0].1@)
    } else {
        env_lookup(vars.drop_first(), name)
    }
}

/// `o`, or `d` when absent.
pub open spec fn or_default(o: Option<Seq<char>>, d: Seq<char>) -> Seq<char> {
    match o {
        Some(v) => v,
        None => d,
    }
}

/// The URL the cookie settings are derived from: `MARKETING_URL`, else
/// `PUBLIC_URL`, else the local default.
pub open spec fn cookie_source_url(vars: Seq<(String, String)>) -> Seq<char> {
    match env_lookup(vars, "MARKETING_URL"@) {
        Some(m) => m,
        None => or_default(env_lookup(vars, "PUBLIC_URL"@), "http://localhost:3000"@),
    }
}

/// The port: `PORT` if it parses as a `u16`, else 3000.
pub open spec fn port_of(vars: Seq<(String, String)>) -> nat {
    match env_lookup(vars, "PORT"@) {
        Some(p) => match parse_unsigned(p, 65535) {
            Some(v) => v,
            None => 3000,
        },
        None => 3000,
    }
}

/// The daily limit: `FREE_DAILY_LIMIT` if it parses as an `i64`, else 5.
pub open spec fn daily_limit_of(vars: Seq<(String, String)>) -> int {
    match env_lookup(vars, "FREE_DAILY_LIMIT"@) {
        Some(p) => match parse_signed(p, i64::MIN as int, i64::MAX as int) {
            Some(v) => v,
            None => 5,
        },
        None => 5,
    }
}

/// The first variable called `name`.
pub fn env_get(vars: &Vec<(String, String)>, name: &str) -> (r: Option<String>)
    ensures
        opt_view(&r) == env_lookup(vars@, name@),
{
    let mut i: usize = 0;
    assert(vars@.skip(0) =~= vars@);
    while i < vars.len()
        invariant
            i <= vars.len(),
            env_lookup(vars@, name@) == env_lookup(vars@.skip(i as int), name@),
        decreases vars.len() - i,
    {
        assert(vars@.skip(i as int).drop_first() =~= vars@.skip(i + 1));
        assert(vars@.skip(i as int)[0] == vars@[i as int]);
        if str_eq(vars[i].0.as_str(), name) {
            return Some(to_owned(vars[i].1.as_str()));
        }
        i = i + 1;
    }
    None
}

/// The variable called `name`, or `default`.
pub fn var_or(vars: &Vec<(String, String)>, name: &str, default: &str) -> (r: String)
    ensures
        r@ == or_default(env_lookup(vars@, name@), default@),
{
    match env_get(vars, name) {
        Some(v) => v,
        None => to_owned(default),
    }
}

impl Config {
    /// Resolve the configuration from the process environment, given as its
    /// list of `(name, value)` pairs.
    pub fn from_vars(vars: &Vec<(String, String)>) -> (c: Config)
        ensures
            c.host@ == or_default(env_lookup(vars@, "HOST"@), "0.0.0.0"@),
            c.port as nat == port_of(vars@),
            c.mongo_uri@ == or_default(env_lookup(vars@, "MONGO_URI"@), ""@),
            c.mongo_db@ == or_default(env_lookup(vars@, "MONGO_DB"@), "relay"@),
            c.resend_api_key@ == or_default(env_lookup(vars@, "RESEND_API_KEY"@), ""@),
            c.resend_from_email@ == or_default(
                env_lookup(vars@, "RESEND_FROM_EMAIL"@),
                "Rift <noreply@updates.riftl.ink>"@,
            ),
            c.public_url@ == or_default(env_lookup(vars@, "PUBLIC_URL"@), "http://localhost:3000"@),
            c.marketing_url@ == cookie_source_url(vars@),
            opt_view(&c.cookie_domain) == cookie_domain_of(
                env_lookup(vars@, "COOKIE_DOMAIN"@),
                url_parse(cookie_source_url(vars@)),
            ),
            c.cookie_same_site == same_site_of(env_lookup(vars@, "COOKIE_SAMESITE"@)),
            c.cookie_secure == (starts_with(cookie_source_url(vars@), "https://"@)
                || c.cookie_same_site == CookieSameSite::NoRestriction),
            c.free_daily_limit as int == daily_limit_of(vars@),
            c.sentry_dsn@ == or_default(env_lookup(vars@, "SENTRY_DSN"@), ""@),
            c.environment@ == or_default(env_lookup(vars@, "ENVIRONMENT"@), "development"@),
            c.git_sha@ == or_default(env_lookup(vars@, "GIT_SHA"@), "unknown"@),
            c.x402_facilitator_url@ == or_default(
                env_lookup(vars@, "X402_FACILITATOR_URL"@),
                "https://facilitator.x402.org"@,
            ),
            c.x402_recipient@ == or_default(env_lookup(vars@, "X402_RECIPIENT"@), ""@),
            c.x402_price_display@ == or_default(env_lookup(vars@, "X402_PRICE"@), "0.01"@),
            c.x402_enabled == (env_lookup(vars@, "X402_ENABLED"@) == Some("true"@) || env_lookup(
                vars@,
                "X402_ENABLED"@,
            ) == Some("1"@)),
            c.cdp_api_key_id@ == or_default(env_lookup(vars@, "CDP_API_KEY_ID"@), ""@),
            c.cdp_api_key_secret@ == or_default(env_lookup(vars@, "CDP_API_KEY_SECRET"@), ""@),
            c.x402_description@ == or_default(
                env_lookup(vars@, "X402_DESCRIPTION"@),
                "Rift API request"@,
            ),
            c.primary_domain@ == or_default(env_lookup(vars@, "PRIMARY_DOMAIN"@), "riftl.ink"@),
            c.fly_api_token@ == or_default(env_lookup(vars@, "FLY_API_TOKEN"@), ""@),
            c.fly_app_name@ == or_default(env_lookup(vars@, "FLY_APP_NAME"@), ""@),
            c.stripe_secret_key@ == or_default(env_lookup(vars@, "STRIPE_SECRET_KEY"@), ""@),
            c.stripe_webhook_secret@ == or_default(
                env_lookup(vars@, "STRIPE_WEBHOOK_SECRET"@),
                ""@,
            ),
            c.stripe_price_id_pro@ == or_default(env_lookup(vars@, "STRIPE_PRICE_ID_PRO"@), ""@),
            c.stripe_price_id_business@ == or_default(
                env_lookup(vars@, "STRIPE_PRICE_ID_BUSINESS"@),
                ""@,
            ),
            c.stripe_price_id_scale@ == or_default(
                env_lookup(vars@, "STRIPE_PRICE_ID_SCALE"@),
                ""@,
            ),
            c.stripe_success_url@ == or_default(env_lookup(vars@, "STRIPE_SUCCESS_URL"@), ""@),
            c.stripe_cancel_url@ == or_default(env_lookup(vars@, "STRIPE_CANCEL_URL"@), ""@),
    {
        let public_url = var_or(vars, "PUBLIC_URL", "http://localhost:3000");
        let cookie_url = match env_get(vars, "MARKETING_URL") {
            Some(m) => m,
            None => to_owned(public_url.as_str()),
        };
        let port: u16 = match env_get(vars, "PORT") {
            Some(p) => match parse_unsigned_str(p.as_str(), 65535) {
                Some(v) => v as u16,
                None => 3000,
            },
            None => 3000,
        };
        let free_daily_limit: i64 = match env_get(vars, "FREE_DAILY_LIMIT") {
            Some(v) => match parse_i64_str(v.as_str()) {
                Some(x) => x,
                None => 5,
            },
            None => 5,
        };
        let cookie_domain_env = env_get(vars, "COOKIE_DOMAIN");
        let cookie_domain = match &cookie_domain_env {
            Some(d) => resolve_cookie_domain(Some(d.as_str()), cookie_url.as_str()),
            None => resolve_cookie_domain(None, cookie_url.as_str()),
        };
        let same_site_env = env_get(vars, "COOKIE_SAMESITE");
        let same_site = match &same_site_env {
            Some(v) => CookieSameSite::from_env_str(Some(v.as_str())),
            None => CookieSameSite::from_env_str(None),
        };
        let scheme_secure = str_starts_with(cookie_url.as_str(), "https://");
        let x402_enabled = match env_get(vars, "X402_ENABLED") {
            Some(v) => str_eq(v.as_str(), "true") || str_eq(v.as_str(), "1"),
            None => false,
        };
        Config {
            host: var_or(vars, "HOST", "0.0.0.0"),
            port,
            mongo_uri: var_or(vars, "MONGO_URI", ""),
            mongo_db: var_or(vars, "MONGO_DB", "relay"),
            resend_api_key: var_or(vars, "RESEND_API_KEY", ""),
            resend_from_email: var_or(
                vars,
                "RESEND_FROM_EMAIL",
                "Rift <noreply@updates.riftl.ink>",
            ),
            public_url,
            marketing_url: to_owned(cookie_url.as_str()),
            cookie_domain,
            cookie_secure: scheme_secure || same_site == CookieSameSite::NoRestriction,
            cookie_same_site: same_site,
            free_daily_limit,
            sentry_dsn: var_or(vars, "SENTRY_DSN", ""),
            environment: var_or(vars, "ENVIRONMENT", "development"),
            git_sha: var_or(vars, "GIT_SHA", "unknown"),
            x402_facilitator_url: var_or(
                vars,
                "X402_FACILITATOR_URL",
                "https://facilitator.x402.org",
            ),
            x402_recipient: var_or(vars, "X402_RECIPIENT", ""),
            x402_price_display: var_or(vars, "X402_PRICE", "0.01"),
            x402_enabled,
            cdp_api_key_id: var_or(vars, "CDP_API_KEY_ID", ""),
            cdp_api_key_secret: var_or(vars, "CDP_API_KEY_SECRET", ""),
            x402_description: var_or(vars, "X402_DESCRIPTION", "Rift API request"),
            primary_domain: var_or(vars, "PRIMARY_DOMAIN", "riftl.ink"),
            fly_api_token: var_or(vars, "FLY_API_TOKEN", ""),
            fly_app_name: var_or(vars, "FLY_APP_NAME", ""),
            stripe_secret_key: var_or(vars, "STRIPE_SECRET_KEY", ""),
            stripe_webhook_secret: var_or(vars, "STRIPE_WEBHOOK_SECRET", ""),
            stripe_price_id_pro: var_or(vars, "STRIPE_PRICE_ID_PRO", ""),
            stripe_price_id_business: var_or(vars, "STRIPE_PRICE_ID_BUSINESS", ""),
            stripe_price_id_scale: var_or(vars, "STRIPE_PRICE_ID_SCALE", ""),
            stripe_success_url: var_or(vars, "STRIPE_SUCCESS_URL", ""),
            stripe_cancel_url: var_or(vars, "STRIPE_CANCEL_URL", ""),
        }
    }

    /// `host:port`, the address the server binds to.
    pub fn bind_addr(&self) -> (r: String)
        ensures
            r@ == self.host@ + ":"@ + decimal(self.port as nat),
    {
        let p = u64_to_string(self.port as u64);
        crate::text::concat3(self.host.as_str(), ":", p.as_str())
    }
}

} // verus!
