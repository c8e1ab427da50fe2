//! Visitor OS detection for link resolution, and the other request-header
//! readings the resolver makes.

use vstd::prelude::*;
use crate::text::{
    ascii_lower, chars_contain, chars_of, contains, push_chars, str_eq, to_ascii_lowercase,
    to_lowercase, to_owned, trim, trim_bounds, trim_str, unicode_lowercase,
};

verus! {

/// The operating system of a visitor.
#[derive(Debug, Clone, Copy, PartialEq, Eq, Structural)]
pub enum Os {
    Ios,
    Android,
    Mac,
    Windows,
    Other,
}

/// The stable analytics name of an OS.
pub open spec fn os_name(os: Os) -> Seq<char> {
    match os {
        Os::Ios => "ios"@,
        Os::Android => "android"@,
        Os::Mac => "macos"@,
        Os::Windows => "windows"@,
        Os::Other => "other"@,
    }
}

impl Os {
    /// The stable analytics name (`ios`, `android`, `macos`, `windows`, `other`).
    pub fn as_str(self) -> (r: &'static str)
        ensures
            r@ == os_name(self),
    {
        match self {
            Os::Ios => "ios",
            Os::Android => "android",
            Os::Mac => "macos",
            Os::Windows => "windows",
            Os::Other => "other",
        }
    }
}

/// The OS that a lower-cased User-Agent names. Mobile checks come first:
/// iOS agents also say "like Mac OS X" and Android agents say "Linux".
pub open spec fn os_of_lower_ua(ua: Seq<char>) -> Os {
    if contains(ua, "iphone"@) || contains(ua, "ipad"@) || contains(ua, "ipod"@) {
        Os::Ios
    } else if contains(ua, "android"@) {
        Os::Android
    } else if contains(ua, "windows"@) {
        Os::Windows
    } else if contains(ua, "macintosh"@) || contains(ua, "mac os x"@) {
        Os::Mac
    } else {
        Os::Other
    }
}

fn has(hay: &Vec<char>, needle: &str) -> (r: bool)
    ensures
        r == contains(hay@, needle@),
{
    let n = chars_of(needle);
    chars_contain(hay, &n)
}

/// UA-only OS detection.
pub fn detect_os_from_ua(user_agent: &str) -> (r: Os)
    ensures
        r == os_of_lower_ua(unicode_lowercase(user_agent@)),
{
    let lower = to_lowercase(user_agent);
    let ua = chars_of(lower.as_str());
    if has(&ua, "iphone") || has(&ua, "ipad") || has(&ua, "ipod") {
        Os::Ios
    } else if has(&ua, "android") {
        Os::Android
    } else if has(&ua, "windows") {
        Os::Windows
    } else if has(&ua, "macintosh") || has(&ua, "mac os x") {
        Os::Mac
    } else {
        Os::Other
    }
}

/// `str::trim_matches('"')`: every leading and trailing `"` removed.
pub open spec fn trim_quotes(s: Seq<char>) -> Seq<char>
    decreases s.len(),
{
    if s.len() > 0 && s[0] == '"' {
        trim_quotes(s.drop_first())
    } else if s.len() > 0 && s.last() == '"' {
        trim_quotes(s.drop_last())
    } else {
        s
    }
}

/// The OS named by a `Sec-CH-UA-Platform` value (after trimming, unquoting
/// and lower-casing), if it is one of the four that decide on their own.
pub open spec fn os_of_hint(h: Seq<char>) -> Option<Os> {
    if h == "ios"@ {
        Some(Os::Ios)
    } else if h == "android"@ {
        Some(Os::Android)
    } else if h == "macos"@ {
        Some(Os::Mac)
    } else if h == "windows"@ {
        Some(Os::Windows)
    } else {
        None
    }
}

/// The OS that `detect_os_from_headers` decides.
pub open spec fn os_of_headers(hint: Option<Seq<char>>, ua: Option<Seq<char>>) -> Os {
    let from_hint = match hint {
        Some(h) => os_of_hint(ascii_lower(trim_quotes(trim(h)))),
        None => None,
    };
    match from_hint {
        Some(os) => os,
        None => match ua {
            Some(u) => os_of_lower_ua(unicode_lowercase(u)),
            None => Os::Other,
        },
    }
}

/// `trim_quotes` of `v[a..b]`, as bounds.
fn trim_quote_bounds(v: &Vec<char>, a: usize, b: usize) -> (r: (usize, usize))
    requires
        a <= b <= v.len(),
    ensures
        a <= r.0 <= r.1 <= b,
        trim_quotes(v@.subrange(a as int, b as int)) == v@.subrange(r.0 as int, r.1 as int),
{
    let mut x = a;
    let mut y = b;
    while x < y && (v[x] == '"' || v[y - 1] == '"')
        invariant
            a <= x <= y <= b <= v.len(),
            trim_quotes(v@.subrange(a as int, b as int)) == trim_quotes(
                v@.subrange(x as int, y as int),
            ),
        decreases y - x,
    {
        let ghost cur = v@.subrange(x as int, y as int);
        if v[x] == '"' {
            assert(cur.drop_first() =~= v@.subrange(x + 1, y as int));
            x = x + 1;
        } else {
            assert(cur.drop_last() =~= v@.subrange(x as int, y - 1));
            y = y - 1;
        }
    }
    (x, y)
}

/// Detect the visitor OS from the `Sec-CH-UA-Platform` client hint (sent by
/// Chromium and Safari 16.4+), falling back to the User-Agent. A hint of
/// Linux, ChromeOS or unknown defers to the User-Agent.
pub fn detect_os_from_headers(platform_hint: Option<&str>, user_agent: Option<&str>) -> (r: Os)
    ensures
        r == os_of_headers(
            match platform_hint {
                Some(h) => Some(h@),
                None => None,
            },
            match user_agent {
                Some(u) => Some(u@),
                None => None,
            },
        ),
{
    if let Some(hint) = platform_hint {
        let v = chars_of(hint);
        let (a, b) = trim_bounds(&v);
        let (x, y) = trim_quote_bounds(&v, a, b);
        let mut unq = String::new();
        push_chars(&mut unq, &v, x, y);
        let h = to_ascii_lowercase(unq.as_str());
        let hs = h.as_str();
        if str_eq(hs, "ios") {
            return Os::Ios;
        } else if str_eq(hs, "android") {
            return Os::Android;
        } else if str_eq(hs, "macos") {
            return Os::Mac;
        } else if str_eq(hs, "windows") {
            return Os::Windows;
        }
    }
    match user_agent {
        Some(ua) => detect_os_from_ua(ua),
        None => Os::Other,
    }
}

/// The text of the first comma-separated item of `s`.
pub open spec fn first_item(s: Seq<char>) -> Seq<char> {
    if exists|i: int| 0 <= i < s.len() && s[i] == ',' {
        s.take(choose|i: int| 0 <= i < s.len() && s[i] == ',' && forall|j: int| 0 <= j < i ==> s[j] != ',')
    } else {
        s
    }
}

/// The first hop of an `X-Forwarded-For` value, trimmed, when not empty.
pub open spec fn first_hop_of(forwarded: Option<Seq<char>>) -> Option<Seq<char>> {
    match forwarded {
        Some(f) => {
            let first = trim(first_item(f));
            if first.len() > 0 {
                Some(first)
            } else {
                None
            }
        },
        None => None,
    }
}

/// The client address that `client_ip_from_forwarded` reports.
pub open spec fn client_ip_of(forwarded: Option<Seq<char>>) -> Seq<char> {
    match first_hop_of(forwarded) {
        Some(ip) => ip,
        None => "local"@,
    }
}

/// The first hop of an `X-Forwarded-For` value, trimmed; `None` when the
/// header is missing or its first item is blank.
pub fn first_forwarded_hop(forwarded: Option<&str>) -> (r: Option<String>)
    ensures
        match r {
            Some(ip) => first_hop_of(
                match forwarded {
                    Some(f) => Some(f@),
                    None => None,
                },
            ) == Some(ip@),
            None => first_hop_of(
                match forwarded {
                    Some(f) => Some(f@),
                    None => None,
                },
            ) is None,
        },
{
    match forwarded {
        None => None,
        Some(f) => {
            let v = chars_of(f);
            let mut i: usize = 0;
            while i < v.len() && v[i] != ','
                invariant
                    i <= v.len(),
                    forall|j: int| 0 <= j < i ==> v@[j] != ',',
                decreases v.len() - i,
            {
                i = i + 1;
            }
            let mut first = String::new();
            push_chars(&mut first, &v, 0, i);
            proof {
                if exists|k: int| 0 <= k < f@.len() && f@[k] == ',' {
                    let c = choose|k: int|
                        0 <= k < f@.len() && f@[k] == ',' && forall|j: int| 0 <= j < k ==> f@[j] != ',';
                    assert(f@[i as int] == ',');
                    assert(c == i) by {
                        if c < i {
                            assert(f@[c] != ',');
                        } else if c > i {
                            assert(f@[i as int] != ',');
                        }
                    }
                    assert(first@ =~= f@.take(i as int));
                } else {
                    assert(first@ =~= f@);
                }
            }
            let t = trim_str(first.as_str());
            if t.as_str().unicode_len() > 0 {
                Some(t)
            } else {
                None
            }
        },
    }
}

/// The caller's IP for rate-limit and logging purposes: the first hop of the
/// `X-Forwarded-For` value, trimmed, or `"local"` when missing or empty.
pub fn client_ip_from_forwarded(forwarded: Option<&str>) -> (r: String)
    ensures
        r@ == client_ip_of(
            match forwarded {
                Some(f) => Some(f@),
                None => None,
            },
        ),
{
    match first_forwarded_hop(forwarded) {
        Some(ip) => ip,
        None => to_owned("local"),
    }
}

/// Whether a `Sec-Fetch-User` value, trimmed, is `?1` — a real human
/// navigation (click, address bar, QR open).
pub fn has_user_activation(sec_fetch_user: Option<&str>) -> (r: bool)
    ensures
        r == match sec_fetch_user {
            Some(v) => trim(v@) == "?1"@,
            None => false,
        },
{
    match sec_fetch_user {
        Some(v) => {
            let t = trim_str(v);
            str_eq(t.as_str(), "?1")
        },
        None => false,
    }
}

} // verus!
