//! The origin allowlist shared by the CORS layer and the sign-in flow: an
//! exact list of origins, and optionally a regular expression for dynamic
//! origins (preview deployments), always anchored to the whole origin.
//!
//! Origins are header values, held as their bytes. A header value may hold
//! any byte from space upwards except DEL, and tabs; only visible ASCII
//! (and tabs) can be read as text for the regular expression.

use vstd::prelude::*;
use crate::text::{concat3, trim, trim_str, str_eq, to_owned};

verus! {

/// A byte a header value may hold (`http`'s `HeaderValue::from_bytes`).
pub open spec fn is_header_byte(b: u8) -> bool {
    (b >= 32 && b != 127) || b == 9
}

/// A byte of header text (`http`'s `HeaderValue::to_str`).
pub open spec fn is_visible_byte(b: u8) -> bool {
    (b >= 32 && b < 127) || b == 9
}

/// Every byte of `b` may stand in a header value.
pub open spec fn valid_header(b: Seq<u8>) -> bool {
    forall|i: int| 0 <= i < b.len() ==> is_header_byte(#[trigger] b[i])
}

/// Every byte of `b` is header text.
pub open spec fn visible_header(b: Seq<u8>) -> bool {
    forall|i: int| 0 <= i < b.len() ==> is_visible_byte(#[trigger] b[i])
}

/// Header text bytes as characters.
pub open spec fn ascii_text(b: Seq<u8>) -> Seq<char> {
    b.map_values(|x: u8| (x as u32) as char)
}

/// Whether the regular expression `pattern` compiles.
pub uninterp spec fn regex_valid(pattern: Seq<char>) -> bool;

/// Whether the compiled `pattern` matches somewhere in `text`.
pub uninterp spec fn regex_match(pattern: Seq<char>, text: Seq<char>) -> bool;

/// `regex::Regex::new(pattern).is_ok()`. The contract claims only that the
/// answer is the one named by `regex_valid`, a function of the pattern.
#[verifier::external_body]
pub(crate) fn regex_compiles(pattern: &str) -> (r: bool)
    ensures
        r == regex_valid(pattern@),
{
    regex::Regex::new(pattern).is_ok()
}

/// `Regex::is_match(text)` on the compiled `pattern`, which must compile.
/// The contract claims only that the answer is the one named by
/// `regex_match`, a function of pattern and text.
#[verifier::external_body]
pub(crate) fn regex_is_match(pattern: &str, text: &str) -> (r: bool)
    requires
        regex_valid(pattern@),
    ensures
        r == regex_match(pattern@, text@),
{
    regex::Regex::new(pattern).map(|re| re.is_match(text)).unwrap_or(false)
}

/// A raw pattern anchored to the whole text: `^(?:` + trimmed pattern + `)$`.
pub open spec fn anchored(raw: Seq<char>) -> Seq<char> {
    "^(?:"@ + trim(raw) + ")$"@
}

/// Anchor a raw pattern to the whole text.
pub fn anchored_regex(raw: &str) -> (r: String)
    ensures
        r@ == anchored(raw@),
{
    let t = trim_str(raw);
    concat3("^(?:", t.as_str(), ")$")
}

/// Whether `origin` is allowed: listed exactly, or, when a pattern is set,
/// readable as text and matched by it.
pub open spec fn origin_allowed(origin: Seq<u8>, exact: Seq<Seq<u8>>, pattern: Option<Seq<char>>) -> bool {
    exact.contains(origin) || match pattern {
        Some(p) => visible_header(origin) && regex_match(p, ascii_text(origin)),
        None => false,
    }
}

/// The byte views of a list of byte strings.
pub open spec fn byte_views(v: Seq<Vec<u8>>) -> Seq<Seq<u8>> {
    v.map_values(|x: Vec<u8>| x@)
}

fn bytes_eq(a: &[u8], b: &[u8]) -> (r: bool)
    ensures
        r == (a@ == b@),
{
    if a.len() != b.len() {
        return false;
    }
    let mut i: usize = 0;
    while i < a.len()
        invariant
            i <= a@.len(),
            a@.len() == b@.len(),
            forall|k: int| 0 <= k < i ==> a@[k] == b@[k],
        decreases a@.len() - i,
    {
        if a[i] != b[i] {
            return false;
        }
        i = i + 1;
    }
    assert(a@ =~= b@);
    true
}

fn is_listed(origin: &[u8], exact: &[Vec<u8>]) -> (r: bool)
    ensures
        r == byte_views(exact@).contains(origin@),
{
    let mut i: usize = 0;
    while i < exact.len()
        invariant
            i <= exact@.len(),
            forall|k: int| 0 <= k < i ==> exact@[k]@ != origin@,
        decreases exact@.len() - i,
    {
        if bytes_eq(exact[i].as_slice(), origin) {
            assert(byte_views(exact@)[i as int] == origin@);
            return true;
        }
        i = i + 1;
    }
    proof {
        if byte_views(exact@).contains(origin@) {
            let k = choose|k: int| 0 <= k < byte_views(exact@).len() && byte_views(exact@)[k] == origin@;
            assert(exact@[k]@ == origin@);
        }
    }
    false
}

/// The header text of `b`, when every byte is visible ASCII or a tab.
fn header_text(b: &[u8]) -> (r: Option<String>)
    ensures
        match r {
            Some(t) => visible_header(b@) && t@ == ascii_text(b@),
            None => !visible_header(b@),
        },
{
    let mut out = String::new();
    let mut i: usize = 0;
    while i < b.len()
        invariant
            i <= b@.len(),
            forall|k: int| 0 <= k < i ==> is_visible_byte(#[trigger] b@[k]),
            out@ == ascii_text(b@.subrange(0, i as int)),
        decreases b@.len() - i,
    {
        let x = b[i];
        if !((x >= 32 && x < 127) || x == 9) {
            return None;
        }
        crate::text::push_char(&mut out, crate::text::char_from_ascii(x as u32));
        assert(ascii_text(b@.subrange(0, i + 1)) =~= ascii_text(b@.subrange(0, i as int)).push(
            (x as u32) as char,
        ));
        i = i + 1;
    }
    assert(b@.subrange(0, b@.len() as int) =~= b@);
    Some(out)
}

/// Decide whether `origin` is allowed. An exact match wins; otherwise the
/// origin must be header text that the (anchored, compiling) pattern matches.
pub fn origin_matches(origin: &[u8], exact: &[Vec<u8>], pattern: Option<&str>) -> (r: bool)
    requires
        pattern is Some ==> regex_valid(pattern->0@),
    ensures
        r == origin_allowed(
            origin@,
            byte_views(exact@),
            match pattern {
                Some(p) => Some(p@),
                None => None,
            },
        ),
{
    if is_listed(origin, exact) {
        return true;
    }
    let p = match pattern {
        Some(p) => p,
        None => return false,
    };
    match header_text(origin) {
        Some(text) => regex_is_match(p, text.as_str()),
        None => false,
    }
}

/// The allowlist of origins.
pub struct OriginMatcher {
    exact: Vec<Vec<u8>>,
    regex: Option<String>,
}

impl OriginMatcher {
    /// A configured pattern always compiles.
    #[verifier::type_invariant]
    spec fn pattern_compiles(self) -> bool {
        self.regex is Some ==> regex_valid(self.regex->0@)
    }

    /// The exact origins, as bytes.
    pub closed spec fn exact_view(self) -> Seq<Seq<u8>> {
        byte_views(self.exact@)
    }

    /// The anchored pattern, if any.
    pub closed spec fn pattern_view(self) -> Option<Seq<char>> {
        match self.regex {
            Some(p) => Some(p@),
            None => None,
        }
    }

    /// A matcher over `exact` and the already anchored `pattern`; a pattern
    /// that does not compile is dropped.
    pub fn new(exact: Vec<Vec<u8>>, pattern: Option<String>) -> (r: Self)
        ensures
            r.exact_view() == byte_views(exact@),
            r.pattern_view() == match pattern {
                Some(p) => if regex_valid(p@) {
                    Some(p@)
                } else {
                    None
                },
                None => None,
            },
    {
        let regex = match pattern {
            Some(p) => if regex_compiles(p.as_str()) {
                Some(p)
            } else {
                None
            },
            None => None,
        };
        OriginMatcher { exact, regex }
    }

    /// Whether the header value `origin` is allowed.
    pub open spec fn allows(self, origin: Seq<u8>) -> bool {
        origin_allowed(origin, self.exact_view(), self.pattern_view())
    }

    /// Whether the origin string is allowed: it is a valid header value that
    /// the matcher allows.
    pub open spec fn allows_str(self, origin: Seq<char>) -> bool {
        valid_header(vstd::utf8::encode_utf8(origin)) && self.allows(vstd::utf8::encode_utf8(origin))
    }

    /// CORS entry point: whether the header value `origin` is allowed.
    pub fn matches(&self, origin: &[u8]) -> (r: bool)
        ensures
            r == self.allows(origin@),
    {
        proof {
            use_type_invariant(self);
        }
        let pattern: Option<&str> = match &self.regex {
            Some(p) => Some(p.as_str()),
            None => None,
        };
        origin_matches(origin, self.exact.as_slice(), pattern)
    }

    /// Sign-in entry point: whether the origin string is allowed; a string
    /// that cannot be a header value never is.
    pub fn matches_str(&self, origin: &str) -> (r: bool)
        ensures
            r == self.allows_str(origin@),
    {
        let bytes = origin.as_bytes();
        if !header_bytes_valid(bytes) {
            return false;
        }
        self.matches(bytes)
    }
}

/// Whether every byte may stand in a header value.
pub fn header_bytes_valid(b: &[u8]) -> (r: bool)
    ensures
        r == valid_header(b@),
{
    let mut i: usize = 0;
    while i < b.len()
        invariant
            i <= b@.len(),
            forall|k: int| 0 <= k < i ==> is_header_byte(#[trigger] b@[k]),
        decreases b@.len() - i,
    {
        let x = b[i];
        if !((x >= 32 && x != 127) || x == 9) {
            return false;
        }
        i = i + 1;
    }
    true
}

/// The header-value bytes of each comma-separated, trimmed, non-empty entry
/// of `list` that is a valid header value, in order.
pub open spec fn listed_origins(list: Seq<char>) -> Seq<Seq<u8>>
    decreases list.len(),
{
    let i = crate::text::index_of(list, ',');
    let piece = trim(list.take(i));
    let bytes = vstd::utf8::encode_utf8(piece);
    let head = if piece.len() > 0 && valid_header(bytes) {
        seq![bytes]
    } else {
        Seq::<Seq<u8>>::empty()
    };
    if 0 <= i < list.len() {
        proof {
            crate::text::lemma_index_of(list, ',');
        }
        head + listed_origins(list.skip(i + 1))
    } else {
        head
    }
}

fn copy_bytes(b: &[u8]) -> (r: Vec<u8>)
    ensures
        r@ == b@,
{
    let mut owned: Vec<u8> = Vec::new();
    let mut i: usize = 0;
    while i < b.len()
        invariant
            i <= b@.len(),
            owned@ == b@.subrange(0, i as int),
        decreases b@.len() - i,
    {
        owned.push(b[i]);
        i = i + 1;
    }
    assert(b@.subrange(0, b@.len() as int) =~= b@);
    owned
}

/// The origins listed in a comma-separated `ALLOWED_ORIGINS` value.
pub fn parse_allowed_origins(list: &str) -> (r: Vec<Vec<u8>>)
    ensures
        byte_views(r@) == listed_origins(list@),
{
    let v = crate::text::chars_of(list);
    let mut out: Vec<Vec<u8>> = Vec::new();
    let mut start: usize = 0;
    assert(list@.skip(0) =~= list@);
    assert(byte_views(out@) + listed_origins(list@) =~= listed_origins(list@));
    loop
        invariant
            start <= v@.len(),
            v@ == list@,
            listed_origins(list@) == byte_views(out@) + listed_origins(list@.skip(start as int)),
        decreases v@.len() - start,
    {
        let ghost rest = list@.skip(start as int);
        let mut end = start;
        while end < v.len() && v[end] != ','
            invariant
                start <= end <= v@.len(),
                forall|k: int| start <= k < end ==> v@[k] != ',',
            decreases v@.len() - end,
        {
            end = end + 1;
        }
        proof {
            assert forall|k: int| 0 <= k < end - start implies rest[k] != ',' by {
                assert(rest[k] == v@[start + k]);
            }
            if end < v.len() {
                assert(rest[end - start] == v@[end as int]);
            }
            crate::text::lemma_index_of_unique(rest, ',', end - start);
            assert(rest.take(end - start) =~= v@.subrange(start as int, end as int));
        }
        let mut piece_chars = String::new();
        crate::text::push_chars(&mut piece_chars, &v, start, end);
        let piece = trim_str(piece_chars.as_str());
        let bytes = piece.as_str().as_bytes();
        let ghost before = out@;
        if piece.unicode_len() > 0 && header_bytes_valid(bytes) {
            out.push(copy_bytes(bytes));
            assert(byte_views(out@) =~= byte_views(before) + seq![bytes@]);
        }
        if end == v.len() {
            proof {
                assert(listed_origins(rest) =~= (if piece@.len() > 0 && valid_header(bytes@) {
                    seq![bytes@]
                } else {
                    Seq::<Seq<u8>>::empty()
                }));
                assert(listed_origins(list@) =~= byte_views(out@));
            }
            return out;
        }
        proof {
            assert(rest.skip(end - start + 1) =~= list@.skip(end + 1));
        }
        start = end + 1;
    }
}

/// A configured regular expression: the anchored form of a non-blank raw
/// pattern.
pub open spec fn configured_pattern(raw: Option<Seq<char>>) -> Option<Seq<char>> {
    match raw {
        Some(r) => if trim(r).len() > 0 {
            Some(anchored(r))
        } else {
            None
        },
        None => None,
    }
}

impl OriginMatcher {
    /// The matcher configured by `ALLOWED_ORIGINS` (`allowed_origins`, empty
    /// when unset) and `ALLOWED_ORIGIN_REGEX`: the listed origins, or the
    /// defaults when none is listed; the anchored pattern when it compiles.
    pub fn from_settings(allowed_origins: &str, origin_regex: Option<&str>, marketing_url: &str) -> (r: Self)
        ensures
            listed_origins(allowed_origins@).len() > 0 ==> r.exact_view() == listed_origins(
                allowed_origins@,
            ),
            listed_origins(allowed_origins@).len() == 0 ==> forall|x: Seq<u8>|
                #[trigger] r.exact_view().contains(x) <==> (valid_header(x) && default_origin(
                    marketing_url@,
                    x,
                )),
            r.pattern_view() == match configured_pattern(
                match origin_regex {
                    Some(x) => Some(x@),
                    None => None,
                },
            ) {
                Some(p) => if regex_valid(p) {
                    Some(p)
                } else {
                    None
                },
                None => None,
            },
    {
        let listed = parse_allowed_origins(allowed_origins);
        let exact = if listed.len() > 0 {
            listed
        } else {
            default_exact_origins(marketing_url)
        };
        let pattern = match origin_regex {
            Some(raw) => {
                let t = trim_str(raw);
                if t.unicode_len() > 0 {
                    Some(anchored_regex(raw))
                } else {
                    None
                }
            },
            None => None,
        };
        OriginMatcher::new(exact, pattern)
    }
}

/// The origins allowed by default: the marketing site and the two local
/// development servers, as header bytes.
pub open spec fn default_origin(m: Seq<char>, x: Seq<u8>) -> bool {
    x == vstd::utf8::encode_utf8(m) || x == vstd::utf8::encode_utf8("http://localhost:3000"@) || x
        == vstd::utf8::encode_utf8("http://localhost:3001"@)
}

/// The default exact origins: the marketing site and the two local
/// development servers, those that are valid header values, once each.
pub fn default_exact_origins(marketing_url: &str) -> (r: Vec<Vec<u8>>)
    ensures
        forall|i: int| 0 <= i < r@.len() ==> valid_header(#[trigger] r@[i]@),
        forall|i: int, j: int| 0 <= i < j < r@.len() ==> r@[i]@ != r@[j]@,
        forall|x: Seq<u8>| #[trigger] byte_views(r@).contains(x) <==> (valid_header(x) && default_origin(
            marketing_url@,
            x,
        )),
{
    let mut exact: Vec<Vec<u8>> = Vec::new();
    let candidates: [&str; 3] = [marketing_url, "http://localhost:3000", "http://localhost:3001"];
    let ghost cands: Seq<Seq<u8>> = seq![
        vstd::utf8::encode_utf8(marketing_url@),
        vstd::utf8::encode_utf8("http://localhost:3000"@),
        vstd::utf8::encode_utf8("http://localhost:3001"@),
    ];
    let mut k: usize = 0;
    while k < 3
        invariant
            k <= 3,
            candidates@[0] == marketing_url,
            candidates@[1]@ == "http://localhost:3000"@,
            candidates@[2]@ == "http://localhost:3001"@,
            cands == seq![
                vstd::utf8::encode_utf8(marketing_url@),
                vstd::utf8::encode_utf8("http://localhost:3000"@),
                vstd::utf8::encode_utf8("http://localhost:3001"@),
            ],
            forall|i: int| 0 <= i < exact@.len() ==> valid_header(#[trigger] exact@[i]@),
            forall|i: int, j: int| 0 <= i < j < exact@.len() ==> exact@[i]@ != exact@[j]@,
            forall|x: Seq<u8>| #[trigger] byte_views(exact@).contains(x) <==> (valid_header(x) && exists|t: int|
                0 <= t < k && #[trigger] cands[t] == x),
        decreases 3 - k,
    {
        let s = candidates[k];
        let bytes = s.as_bytes();
        assert(bytes@ == cands[k as int]);
        let ghost before = exact@;
        if header_bytes_valid(bytes) && !is_listed(bytes, exact.as_slice()) {
            let mut owned: Vec<u8> = Vec::new();
            let mut i: usize = 0;
            while i < bytes.len()
                invariant
                    i <= bytes@.len(),
                    owned@ == bytes@.subrange(0, i as int),
                decreases bytes@.len() - i,
            {
                owned.push(bytes[i]);
                i = i + 1;
            }
            assert(bytes@.subrange(0, bytes@.len() as int) =~= bytes@);
            exact.push(owned);
            proof {
                assert(byte_views(exact@) =~= byte_views(before).push(bytes@));
                assert forall|i: int, j: int| 0 <= i < j < exact@.len() implies exact@[i]@
                    != exact@[j]@ by {
                    if j == exact@.len() - 1 {
                        assert(byte_views(before)[i] == exact@[i]@);
                    }
                }
                assert forall|x: Seq<u8>| #[trigger] byte_views(exact@).contains(x) <==> (valid_header(x)
                    && exists|t: int| 0 <= t < k + 1 && #[trigger] cands[t] == x) by {
                    if byte_views(exact@).contains(x) {
                        let idx = choose|idx: int| 0 <= idx < byte_views(exact@).len() && byte_views(exact@)[idx] == x;
                        if idx < before.len() {
                            assert(byte_views(before)[idx] == x);
                            assert(byte_views(before).contains(x));
                        } else {
                            assert(x == bytes@);
                            assert(cands[k as int] == x);
                        }
                    }
                    if valid_header(x) && exists|t: int| 0 <= t < k + 1 && #[trigger] cands[t] == x {
                        let t = choose|t: int| 0 <= t < k + 1 && #[trigger] cands[t] == x;
                        if t < k {
                            assert(byte_views(before).contains(x));
                            let idx = choose|idx: int| 0 <= idx < byte_views(before).len() && byte_views(before)[idx] == x;
                            assert(byte_views(exact@)[idx] == x);
                        } else {
                            assert(byte_views(exact@)[before.len() as int] == x);
                        }
                    }
                }
            }
        } else {
            proof {
                assert forall|x: Seq<u8>| #[trigger] byte_views(exact@).contains(x) <==> (valid_header(x)
                    && exists|t: int| 0 <= t < k + 1 && #[trigger] cands[t] == x) by {
                    if valid_header(x) && exists|t: int| 0 <= t < k + 1 && #[trigger] cands[t] == x {
                        let t = choose|t: int| 0 <= t < k + 1 && #[trigger] cands[t] == x;
                        if t == k {
                            assert(byte_views(exact@).contains(bytes@));
                        }
                    }
                    if byte_views(exact@).contains(x) {
                        let t = choose|t: int| 0 <= t < k && #[trigger] cands[t] == x;
                        assert(0 <= t < k + 1 && cands[t] == x);
                    }
                }
            }
        }
        k = k + 1;
    }
    assert forall|x: Seq<u8>| #[trigger] byte_views(exact@).contains(x) <==> (valid_header(x)
        && default_origin(marketing_url@, x)) by {
        if valid_header(x) && default_origin(marketing_url@, x) {
            if x == cands[0] {
            } else if x == cands[1] {
            } else {
                assert(x == cands[2]);
            }
        }
    }
    exact
}

/// Sign-in and CORS cannot drift: an origin string is allowed exactly when
/// it is a valid header value whose bytes the CORS check allows.
pub proof fn lemma_sign_in_agrees_with_cors(m: OriginMatcher, origin: Seq<char>)
    ensures
        m.allows_str(origin) == (valid_header(vstd::utf8::encode_utf8(origin)) && m.allows(
            vstd::utf8::encode_utf8(origin),
        )),
{
}

/// Exact matches win: a listed origin is allowed whatever the pattern.
pub proof fn lemma_exact_wins(origin: Seq<u8>, exact: Seq<Seq<u8>>, pattern: Option<Seq<char>>)
    requires
        exact.contains(origin),
    ensures
        origin_allowed(origin, exact, pattern),
{
}

/// Without a pattern only listed origins are allowed.
pub proof fn lemma_no_pattern_is_exact_only(origin: Seq<u8>, exact: Seq<Seq<u8>>)
    ensures
        origin_allowed(origin, exact, None) == exact.contains(origin),
{
}

/// An origin that is not header text is never admitted by the pattern.
pub proof fn lemma_unreadable_origin_needs_listing(
    origin: Seq<u8>,
    exact: Seq<Seq<u8>>,
    pattern: Option<Seq<char>>,
)
    requires
        !visible_header(origin),
    ensures
        origin_allowed(origin, exact, pattern) == exact.contains(origin),
{
}

} // verus!
