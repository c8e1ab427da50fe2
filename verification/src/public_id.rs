//! Typed prefixed identifiers: `<prefix>_<24-char-lowercase-hex>`, where the
//! body is the 12-byte storage id in lowercase hex. `Id<P>` stores the bytes;
//! the prefix comes from the marker `P`, so ids of different resources are
//! different types.

use vstd::prelude::*;
use core::marker::PhantomData;
use crate::text::{index_of, lemma_index_of, lemma_index_of_unique, chars_of, push_char, push_chars, push_str, str_eq, to_owned};
use crate::num::{decimal, u64_to_string};

verus! {

/// Implemented by zero-sized marker types to declare a resource's wire prefix
/// and schema name.
pub trait IdPrefix {
    /// The wire-format prefix, e.g. `aff` in `aff_665a...`.
    spec fn spec_prefix() -> Seq<char>;

    /// The wire-format prefix.
    fn prefix() -> (p: &'static str)
        ensures
            p@ == Self::spec_prefix(),
    ;

    /// A prefix never holds the `_` that ends it.
    proof fn lemma_prefix_has_no_separator()
        ensures
            forall|k: int| 0 <= k < Self::spec_prefix().len() ==> #[trigger] Self::spec_prefix()[k] != '_',
    ;

    /// The name used in OpenAPI / JSON Schema documents.
    spec fn spec_schema_name() -> Seq<char>;

    /// The name used in OpenAPI / JSON Schema documents.
    fn schema_name() -> (n: &'static str)
        ensures
            n@ == Self::spec_schema_name(),
    ;
}

/// Length of the hex body: 12 bytes, 24 hex characters.
pub const HEX_LEN: usize = 24;

/// A typed prefixed identifier over a 12-byte storage id.
pub struct Id<P: IdPrefix> {
    bytes: [u8; 12],
    _marker: PhantomData<P>,
}

/// The lowercase hex digit for `d < 16`.
pub open spec fn hex_digit_char(d: u8) -> char {
    if d < 10 {
        ((d + 48) as u32) as char
    } else {
        ((d + 87) as u32) as char
    }
}

/// Lowercase hex encoding, two characters per byte.
pub open spec fn hex_lower(b: Seq<u8>) -> Seq<char>
    decreases b.len(),
{
    if b.len() == 0 {
        Seq::empty()
    } else {
        hex_lower(b.drop_last()).push(hex_digit_char(b.last() / 16)).push(
            hex_digit_char(b.last() % 16),
        )
    }
}

/// A lowercase hex digit.
pub open spec fn is_lower_hex(c: char) -> bool {
    ('0' <= c && c <= '9') || ('a' <= c && c <= 'f')
}

/// The value of a lowercase hex digit.
pub open spec fn lower_hex_value(c: char) -> u8 {
    if '0' <= c && c <= '9' {
        ((c as u32) - 48) as u8
    } else {
        ((c as u32) - 87) as u8
    }
}

/// Decoding of a lowercase hex string of even length.
pub open spec fn hex_decode(s: Seq<char>) -> Seq<u8>
    decreases s.len(),
{
    if s.len() < 2 {
        Seq::empty()
    } else {
        hex_decode(s.drop_last().drop_last()).push(
            (lower_hex_value(s[s.len() - 2]) * 16 + lower_hex_value(s.last())) as u8,
        )
    }
}

/// Why an id string was rejected.
#[derive(Clone, Debug)]
pub enum ParseIdError {
    /// No `_` between prefix and body.
    MissingSeparator,
    /// The prefix is not the one of the expected resource.
    WrongPrefix { expected: &'static str, got: String },
    /// The body is not 24 bytes long.
    InvalidLength { expected: usize, got: usize },
    /// The body is not 24-char lowercase hex.
    InvalidHex,
}

/// The spec-level value of a [`ParseIdError`].
pub enum ParseIdErrorView {
    MissingSeparator,
    WrongPrefix { expected: Seq<char>, got: Seq<char> },
    InvalidLength { expected: nat, got: nat },
    InvalidHex,
}

impl View for ParseIdError {
    type V = ParseIdErrorView;

    open spec fn view(&self) -> ParseIdErrorView {
        match self {
            ParseIdError::MissingSeparator => ParseIdErrorView::MissingSeparator,
            ParseIdError::WrongPrefix { expected, got } => ParseIdErrorView::WrongPrefix {
                expected: expected@,
                got: got@,
            },
            ParseIdError::InvalidLength { expected, got } => ParseIdErrorView::InvalidLength {
                expected: *expected as nat,
                got: *got as nat,
            },
            ParseIdError::InvalidHex => ParseIdErrorView::InvalidHex,
        }
    }
}

/// The index of the first `_` in `s`, if any.
pub open spec fn first_underscore(s: Seq<char>) -> Option<int> {
    if index_of(s, '_') < s.len() {
        Some(index_of(s, '_'))
    } else {
        None
    }
}

/// What `Id::<P>::parse` gives for `s`, where `P`'s prefix is `prefix`.
pub open spec fn parse_id(s: Seq<char>, prefix: Seq<char>) -> Result<Seq<u8>, ParseIdErrorView> {
    match first_underscore(s) {
        None => Err(ParseIdErrorView::MissingSeparator),
        Some(i) => {
            let pre = s.take(i);
            let body = s.skip(i + 1);
            if pre != prefix {
                Err(ParseIdErrorView::WrongPrefix { expected: prefix, got: pre })
            } else if (vstd::utf8::encode_utf8(body).len() as usize) != 24 {
                Err(
                    ParseIdErrorView::InvalidLength {
                        expected: 24,
                        got: (vstd::utf8::encode_utf8(body).len() as usize) as nat,
                    },
                )
            } else if !(forall|k: int| 0 <= k < body.len() ==> is_lower_hex(#[trigger] body[k])) {
                Err(ParseIdErrorView::InvalidHex)
            } else {
                Ok(hex_decode(body))
            }
        },
    }
}

/// The wire form of an id: prefix, `_`, lowercase hex body.
pub open spec fn wire_form(prefix: Seq<char>, bytes: Seq<u8>) -> Seq<char> {
    prefix + seq!['_'] + hex_lower(bytes)
}

fn hex_char(d: u8) -> (c: char)
    requires
        d < 16,
    ensures
        c == hex_digit_char(d),
        is_lower_hex(c),
        lower_hex_value(c) == d,
{
    if d < 10 {
        crate::text::char_from_ascii((d + 48) as u32)
    } else {
        crate::text::char_from_ascii((d + 87) as u32)
    }
}

fn hex_value(c: char) -> (d: u8)
    requires
        is_lower_hex(c),
    ensures
        d == lower_hex_value(c),
        d < 16,
{
    if '0' <= c && c <= '9' {
        ((c as u32) - 48) as u8
    } else {
        ((c as u32) - 87) as u8
    }
}

/// The 24-char lowercase hex of a storage id, high nibble first.
pub fn object_id_hex(bytes: &[u8; 12]) -> (r: String)
    ensures
        r@ == hex_lower(bytes@),
{
    let mut out = String::new();
    let mut i: usize = 0;
    while i < 12
        invariant
            i <= 12,
            out@ == hex_lower(bytes@.take(i as int)),
        decreases 12 - i,
    {
        let b = bytes[i];
        assert(bytes@.take(i + 1).drop_last() =~= bytes@.take(i as int));
        push_char(&mut out, hex_char(b / 16));
        push_char(&mut out, hex_char(b % 16));
        i = i + 1;
    }
    assert(bytes@.take(12) =~= bytes@);
    out
}

impl<P: IdPrefix> Id<P> {
    /// The 12 bytes of the id.
    pub closed spec fn spec_bytes(&self) -> Seq<u8> {
        self.bytes@
    }

    /// An id holds 12 bytes, and its wire form parses back to it.
    pub proof fn lemma_round_trip(&self)
        ensures
            self.spec_bytes().len() == 12,
            parse_id(wire_form(P::spec_prefix(), self.spec_bytes()), P::spec_prefix()) == Ok::<
                Seq<u8>,
                ParseIdErrorView,
            >(self.spec_bytes()),
    {
        P::lemma_prefix_has_no_separator();
        lemma_parse_wire_form(P::spec_prefix(), self.spec_bytes());
    }

    /// Construct from the 12 bytes of a storage id.
    pub fn from_object_id(oid: [u8; 12]) -> (r: Self)
        ensures
            r.spec_bytes() == oid@,
    {
        Id { bytes: oid, _marker: PhantomData }
    }

    /// The 12 bytes of the storage id.
    pub fn to_object_id(&self) -> (r: [u8; 12])
        ensures
            r@ == self.spec_bytes(),
    {
        self.bytes
    }

    /// Borrow the 12 bytes of the storage id.
    pub fn as_object_id(&self) -> (r: &[u8; 12])
        ensures
            r@ == self.spec_bytes(),
    {
        &self.bytes
    }

    /// The raw 24-char lowercase hex of the id (no prefix).
    pub fn as_hex(&self) -> (r: String)
        ensures
            r@ == hex_lower(self.spec_bytes()),
    {
        object_id_hex(&self.bytes)
    }

    /// The wire form `<prefix>_<hex>`.
    pub fn to_string(&self) -> (r: String)
        ensures
            r@ == wire_form(P::spec_prefix(), self.spec_bytes()),
    {
        let mut out = to_owned(P::prefix());
        push_char(&mut out, '_');
        let h = self.as_hex();
        push_str(&mut out, h.as_str());
        out
    }

    /// Parse `<prefix>_<24-char-hex>`. The body must be lowercase hex.
    #[verifier::loop_isolation(false)]
    pub fn parse(s: &str) -> (r: Result<Self, ParseIdError>)
        ensures
            match r {
                Ok(id) => parse_id(s@, P::spec_prefix()) == Ok::<Seq<u8>, ParseIdErrorView>(
                    id.spec_bytes(),
                ),
                Err(e) => parse_id(s@, P::spec_prefix()) == Err::<Seq<u8>, ParseIdErrorView>(e@),
            },
    {
        let v = chars_of(s);
        let mut i: usize = 0;
        while i < v.len() && v[i] != '_'
            invariant
                i <= v.len(),
                forall|j: int| 0 <= j < i ==> v@[j] != '_',
            decreases v.len() - i,
        {
            i = i + 1;
        }
        proof {
            lemma_index_of_unique(s@, '_', i as int);
        }
        if i == v.len() {
            return Err(ParseIdError::MissingSeparator);
        }
        assert(first_underscore(s@) == Some(i as int));
        let mut pre = String::new();
        push_chars(&mut pre, &v, 0, i);
        let mut body = String::new();
        push_chars(&mut body, &v, i + 1, v.len());
        assert(pre@ =~= s@.take(i as int));
        assert(body@ =~= s@.skip(i + 1));
        if !str_eq(pre.as_str(), P::prefix()) {
            return Err(ParseIdError::WrongPrefix { expected: P::prefix(), got: pre });
        }
        let blen = body.as_str().len();
        if blen != HEX_LEN {
            return Err(ParseIdError::InvalidLength { expected: HEX_LEN, got: blen });
        }
        let bv = chars_of(body.as_str());
        let mut k: usize = 0;
        while k < bv.len()
            invariant
                k <= bv.len(),
                bv@ == s@.skip(i + 1),
                forall|j: int| 0 <= j < k ==> is_lower_hex(#[trigger] bv@[j]),
            decreases bv.len() - k,
        {
            let c = bv[k];
            if !(('0' <= c && c <= '9') || ('a' <= c && c <= 'f')) {
                assert(!is_lower_hex(s@.skip(i + 1)[k as int]));
                return Err(ParseIdError::InvalidHex);
            }
            k = k + 1;
        }
        proof {
            lemma_ascii_len(bv@);
        }
        let mut bytes: [u8; 12] = [0u8; 12];
        let mut j: usize = 0;
        while j < 12
            invariant
                bv.len() == 24,
                j <= 12,
                forall|q: int| 0 <= q < 24 ==> is_lower_hex(#[trigger] bv@[q]),
                bytes@.len() == 12,
                bytes@.take(j as int) == hex_decode(bv@.take(2 * j)),
            decreases 12 - j,
        {
            let hi = hex_value(bv[2 * j]);
            let lo = hex_value(bv[2 * j + 1]);
            let ghost before = bytes@;
            let byte: u8 = hi * 16 + lo;
            bytes.set(j, byte);
            assert(bv@.take(2 * j + 2).drop_last().drop_last() =~= bv@.take(2 * j));
            assert(bytes@.take(j + 1) =~= before.take(j as int).push(byte));
            j = j + 1;
        }
        assert(bv@.take(24) =~= bv@);
        assert(bytes@.take(12) =~= bytes@);
        Ok(Id { bytes, _marker: PhantomData })
    }
}

/// A string of lowercase hex digits has one byte per character.
proof fn lemma_ascii_len(s: Seq<char>)
    requires
        forall|k: int| 0 <= k < s.len() ==> is_lower_hex(#[trigger] s[k]),
    ensures
        vstd::utf8::encode_utf8(s).len() == s.len(),
{
    assert(vstd::utf8::is_ascii_chars(s)) by {
        assert forall|k: int| 0 <= k < s.len() implies #[trigger] (s[k] as u32) < 128 by {
            assert(is_lower_hex(s[k]));
        }
    }
    vstd::utf8::is_ascii_chars_encode_utf8(s);
}

} // verus!

verus! {

proof fn lemma_hex_digit(d: u8)
    requires
        d < 16,
    ensures
        is_lower_hex(hex_digit_char(d)),
        lower_hex_value(hex_digit_char(d)) == d,
{
}

proof fn lemma_hex_char_roundtrip(c: char)
    requires
        is_lower_hex(c),
    ensures
        lower_hex_value(c) < 16,
        hex_digit_char(lower_hex_value(c)) == c,
{
}

/// Encoding then decoding hex gives the bytes back, and the encoding is
/// lowercase hex of twice the length.
proof fn lemma_hex_lower(b: Seq<u8>)
    ensures
        hex_lower(b).len() == 2 * b.len(),
        forall|k: int| 0 <= k < hex_lower(b).len() ==> is_lower_hex(#[trigger] hex_lower(b)[k]),
        hex_decode(hex_lower(b)) == b,
    decreases b.len(),
{
    if b.len() > 0 {
        let p = b.drop_last();
        lemma_hex_lower(p);
        let x = b.last();
        lemma_hex_digit(x / 16);
        lemma_hex_digit(x % 16);
        let h = hex_lower(b);
        assert(h.drop_last().drop_last() =~= hex_lower(p));
        assert forall|k: int| 0 <= k < h.len() implies is_lower_hex(#[trigger] h[k]) by {
            if k < hex_lower(p).len() {
                assert(h[k] == hex_lower(p)[k]);
            }
        }
        assert((x / 16) * 16 + x % 16 == x);
        assert(b =~= p.push(x));
    } else {
        assert(b =~= Seq::<u8>::empty());
    }
}

/// Decoding lowercase hex of even length then encoding gives the text back.
proof fn lemma_hex_decode(s: Seq<char>)
    requires
        s.len() % 2 == 0,
        forall|k: int| 0 <= k < s.len() ==> is_lower_hex(#[trigger] s[k]),
    ensures
        hex_lower(hex_decode(s)) == s,
    decreases s.len(),
{
    if s.len() >= 2 {
        let p = s.drop_last().drop_last();
        assert forall|k: int| 0 <= k < p.len() implies is_lower_hex(#[trigger] p[k]) by {
            assert(p[k] == s[k]);
        }
        lemma_hex_decode(p);
        let hi = s[s.len() - 2];
        let lo = s.last();
        lemma_hex_char_roundtrip(hi);
        lemma_hex_char_roundtrip(lo);
        let x = (lower_hex_value(hi) * 16 + lower_hex_value(lo)) as u8;
        assert(x / 16 == lower_hex_value(hi));
        assert(x % 16 == lower_hex_value(lo));
        assert(hex_decode(s).drop_last() =~= hex_decode(p));
        assert(hex_decode(s).last() == x);
        assert(s =~= p.push(hi).push(lo));
    } else {
        assert(s =~= Seq::<char>::empty());
    }
}

/// An id's wire form parses back to the same id, for any prefix without `_`.
pub proof fn lemma_parse_wire_form(prefix: Seq<char>, bytes: Seq<u8>)
    requires
        bytes.len() == 12,
        forall|k: int| 0 <= k < prefix.len() ==> #[trigger] prefix[k] != '_',
    ensures
        parse_id(wire_form(prefix, bytes), prefix) == Ok::<Seq<u8>, ParseIdErrorView>(bytes),
{
    let w = wire_form(prefix, bytes);
    let n = prefix.len() as int;
    lemma_hex_lower(bytes);
    assert(w[n] == '_');
    assert(forall|j: int| 0 <= j < n ==> w[j] == prefix[j]);
    lemma_index_of_unique(w, '_', n);
    assert(w.take(n) =~= prefix);
    assert(w.skip(n + 1) =~= hex_lower(bytes));
    lemma_ascii_len(hex_lower(bytes));
}

/// A string that parses is exactly the wire form of the parsed id: ids
/// have one canonical spelling.
pub proof fn lemma_parsed_is_wire_form(s: Seq<char>, prefix: Seq<char>)
    requires
        s.len() <= usize::MAX,
        parse_id(s, prefix) is Ok,
    ensures
        wire_form(prefix, parse_id(s, prefix)->Ok_0) == s,
{
    lemma_index_of(s, '_');
    let i = index_of(s, '_');
    let body = s.skip(i + 1);
    assert(s.take(i) == prefix);
    assert(forall|k: int| 0 <= k < body.len() ==> is_lower_hex(#[trigger] body[k]));
    lemma_ascii_len(body);
    assert(body.len() <= usize::MAX);
    assert(body.len() == 24);
    lemma_hex_decode(body);
    assert(s =~= s.take(i) + seq!['_'] + body);
}

} // verus!

verus! {

/// Marker for `AffiliateId` (prefix `aff`).
pub struct AffiliateIdMarker;

impl<P: IdPrefix> Clone for Id<P> {
    fn clone(&self) -> (r: Self)
        ensures
            r.spec_bytes() == self.spec_bytes(),
    {
        Id { bytes: self.bytes, _marker: PhantomData }
    }
}

impl<P: IdPrefix> Copy for Id<P> {
}

/// Whether two ids of one kind stand for the same storage id.
fn same_bytes(a: &[u8; 12], b: &[u8; 12]) -> (r: bool)
    ensures
        r == (a@ == b@),
{
    let mut i: usize = 0;
    while i < 12
        invariant
            i <= 12,
            forall|k: int| 0 <= k < i ==> a@[k] == b@[k],
        decreases 12 - i,
    {
        if a[i] != b[i] {
            return false;
        }
        i = i + 1;
    }
    assert(a@ =~= b@);
    true
}

impl<P: IdPrefix> PartialEq for Id<P> {
    fn eq(&self, other: &Self) -> (r: bool) {
        same_bytes(&self.bytes, &other.bytes)
    }
}

impl<P: IdPrefix> vstd::std_specs::cmp::PartialEqSpecImpl for Id<P> {
    open spec fn obeys_eq_spec() -> bool {
        true
    }

    open spec fn eq_spec(&self, other: &Self) -> bool {
        self.spec_bytes() == other.spec_bytes()
    }
}

impl<P: IdPrefix> Eq for Id<P> {
}

impl<P: IdPrefix> core::str::FromStr for Id<P> {
    type Err = ParseIdError;

    fn from_str(s: &str) -> (r: Result<Self, ParseIdError>)
        ensures
            match r {
                Ok(id) => parse_id(s@, P::spec_prefix()) == Ok::<Seq<u8>, ParseIdErrorView>(
                    id.spec_bytes(),
                ),
                Err(e) => parse_id(s@, P::spec_prefix()) == Err::<Seq<u8>, ParseIdErrorView>(e@),
            },
    {
        Self::parse(s)
    }
}

impl IdPrefix for AffiliateIdMarker {
    open spec fn spec_prefix() -> Seq<char> {
        "aff"@
    }

    fn prefix() -> (p: &'static str) {
        "aff"
    }

    proof fn lemma_prefix_has_no_separator() {
        reveal_strlit("aff");
    }

    open spec fn spec_schema_name() -> Seq<char> {
        "AffiliateId"@
    }

    fn schema_name() -> &'static str {
        "AffiliateId"
    }
}

/// Identifier of a Affiliate resource.
pub type AffiliateId = Id<AffiliateIdMarker>;

/// Marker for `AppId` (prefix `app`).
pub struct AppIdMarker;

impl IdPrefix for AppIdMarker {
    open spec fn spec_prefix() -> Seq<char> {
        "app"@
    }

    fn prefix() -> (p: &'static str) {
        "app"
    }

    proof fn lemma_prefix_has_no_separator() {
        reveal_strlit("app");
    }

    open spec fn spec_schema_name() -> Seq<char> {
        "AppId"@
    }

    fn schema_name() -> &'static str {
        "AppId"
    }
}

/// Identifier of a App resource.
pub type AppId = Id<AppIdMarker>;

/// Marker for `ConversionEventId` (prefix `cev`).
pub struct ConversionEventIdMarker;

impl IdPrefix for ConversionEventIdMarker {
    open spec fn spec_prefix() -> Seq<char> {
        "cev"@
    }

    fn prefix() -> (p: &'static str) {
        "cev"
    }

    proof fn lemma_prefix_has_no_separator() {
        reveal_strlit("cev");
    }

    open spec fn spec_schema_name() -> Seq<char> {
        "ConversionEventId"@
    }

    fn schema_name() -> &'static str {
        "ConversionEventId"
    }
}

/// Identifier of a ConversionEvent resource.
pub type ConversionEventId = Id<ConversionEventIdMarker>;

/// Marker for `DomainId` (prefix `dom`).
pub struct DomainIdMarker;

impl IdPrefix for DomainIdMarker {
    open spec fn spec_prefix() -> Seq<char> {
        "dom"@
    }

    fn prefix() -> (p: &'static str) {
        "dom"
    }

    proof fn lemma_prefix_has_no_separator() {
        reveal_strlit("dom");
    }

    open spec fn spec_schema_name() -> Seq<char> {
        "DomainId"@
    }

    fn schema_name() -> &'static str {
        "DomainId"
    }
}

/// Identifier of a Domain resource.
pub type DomainId = Id<DomainIdMarker>;

/// Marker for `AppUserId` (prefix `appusr`).
pub struct AppUserIdMarker;

impl IdPrefix for AppUserIdMarker {
    open spec fn spec_prefix() -> Seq<char> {
        "appusr"@
    }

    fn prefix() -> (p: &'static str) {
        "appusr"
    }

    proof fn lemma_prefix_has_no_separator() {
        reveal_strlit("appusr");
    }

    open spec fn spec_schema_name() -> Seq<char> {
        "AppUserId"@
    }

    fn schema_name() -> &'static str {
        "AppUserId"
    }
}

/// Identifier of a AppUser resource.
pub type AppUserId = Id<AppUserIdMarker>;

/// Marker for `InstallEventId` (prefix `iev`).
pub struct InstallEventIdMarker;

impl IdPrefix for InstallEventIdMarker {
    open spec fn spec_prefix() -> Seq<char> {
        "iev"@
    }

    fn prefix() -> (p: &'static str) {
        "iev"
    }

    proof fn lemma_prefix_has_no_separator() {
        reveal_strlit("iev");
    }

    open spec fn spec_schema_name() -> Seq<char> {
        "InstallEventId"@
    }

    fn schema_name() -> &'static str {
        "InstallEventId"
    }
}

/// Identifier of a InstallEvent resource.
pub type InstallEventId = Id<InstallEventIdMarker>;

/// Marker for `LinkInternalId` (prefix `lnk`).
pub struct LinkInternalIdMarker;

impl IdPrefix for LinkInternalIdMarker {
    open spec fn spec_prefix() -> Seq<char> {
        "lnk"@
    }

    fn prefix() -> (p: &'static str) {
        "lnk"
    }

    proof fn lemma_prefix_has_no_separator() {
        reveal_strlit("lnk");
    }

    open spec fn spec_schema_name() -> Seq<char> {
        "LinkInternalId"@
    }

    fn schema_name() -> &'static str {
        "LinkInternalId"
    }
}

/// Identifier of a LinkInternal resource.
pub type LinkInternalId = Id<LinkInternalIdMarker>;

/// Marker for `PublishableKeyId` (prefix `pkid`).
pub struct PublishableKeyIdMarker;

impl IdPrefix for PublishableKeyIdMarker {
    open spec fn spec_prefix() -> Seq<char> {
        "pkid"@
    }

    fn prefix() -> (p: &'static str) {
        "pkid"
    }

    proof fn lemma_prefix_has_no_separator() {
        reveal_strlit("pkid");
    }

    open spec fn spec_schema_name() -> Seq<char> {
        "PublishableKeyId"@
    }

    fn schema_name() -> &'static str {
        "PublishableKeyId"
    }
}

/// Identifier of a PublishableKey resource.
pub type PublishableKeyId = Id<PublishableKeyIdMarker>;

/// Marker for `SecretKeyId` (prefix `skid`).
pub struct SecretKeyIdMarker;

impl IdPrefix for SecretKeyIdMarker {
    open spec fn spec_prefix() -> Seq<char> {
        "skid"@
    }

    fn prefix() -> (p: &'static str) {
        "skid"
    }

    proof fn lemma_prefix_has_no_separator() {
        reveal_strlit("skid");
    }

    open spec fn spec_schema_name() -> Seq<char> {
        "SecretKeyId"@
    }

    fn schema_name() -> &'static str {
        "SecretKeyId"
    }
}

/// Identifier of a SecretKey resource.
pub type SecretKeyId = Id<SecretKeyIdMarker>;

/// Marker for `SourceId` (prefix `src`).
pub struct SourceIdMarker;

impl IdPrefix for SourceIdMarker {
    open spec fn spec_prefix() -> Seq<char> {
        "src"@
    }

    fn prefix() -> (p: &'static str) {
        "src"
    }

    proof fn lemma_prefix_has_no_separator() {
        reveal_strlit("src");
    }

    open spec fn spec_schema_name() -> Seq<char> {
        "SourceId"@
    }

    fn schema_name() -> &'static str {
        "SourceId"
    }
}

/// Identifier of a Source resource.
pub type SourceId = Id<SourceIdMarker>;

/// Marker for `TenantId` (prefix `tnt`).
pub struct TenantIdMarker;

impl IdPrefix for TenantIdMarker {
    open spec fn spec_prefix() -> Seq<char> {
        "tnt"@
    }

    fn prefix() -> (p: &'static str) {
        "tnt"
    }

    proof fn lemma_prefix_has_no_separator() {
        reveal_strlit("tnt");
    }

    open spec fn spec_schema_name() -> Seq<char> {
        "TenantId"@
    }

    fn schema_name() -> &'static str {
        "TenantId"
    }
}

/// Identifier of a Tenant resource.
pub type TenantId = Id<TenantIdMarker>;

/// Marker for `UserId` (prefix `usr`).
pub struct UserIdMarker;

impl IdPrefix for UserIdMarker {
    open spec fn spec_prefix() -> Seq<char> {
        "usr"@
    }

    fn prefix() -> (p: &'static str) {
        "usr"
    }

    proof fn lemma_prefix_has_no_separator() {
        reveal_strlit("usr");
    }

    open spec fn spec_schema_name() -> Seq<char> {
        "UserId"@
    }

    fn schema_name() -> &'static str {
        "UserId"
    }
}

/// Identifier of a User resource.
pub type UserId = Id<UserIdMarker>;

/// Marker for `WebhookId` (prefix `wh`).
pub struct WebhookIdMarker;

impl IdPrefix for WebhookIdMarker {
    open spec fn spec_prefix() -> Seq<char> {
        "wh"@
    }

    fn prefix() -> (p: &'static str) {
        "wh"
    }

    proof fn lemma_prefix_has_no_separator() {
        reveal_strlit("wh");
    }

    open spec fn spec_schema_name() -> Seq<char> {
        "WebhookId"@
    }

    fn schema_name() -> &'static str {
        "WebhookId"
    }
}

/// Identifier of a Webhook resource.
pub type WebhookId = Id<WebhookIdMarker>;

impl ParseIdError {
    /// The human-readable description of the error.
    pub fn message(&self) -> (r: String)
        ensures
            r@ == parse_error_message(self@),
    {
        match self {
            ParseIdError::MissingSeparator => to_owned("missing `_` separator between prefix and body"),
            ParseIdError::WrongPrefix { expected, got } => {
                let mut s = to_owned("wrong prefix: expected `");
                push_str(&mut s, expected);
                push_str(&mut s, "`, got `");
                push_str(&mut s, got.as_str());
                push_str(&mut s, "`");
                s
            },
            ParseIdError::InvalidLength { expected, got } => {
                let mut s = to_owned("invalid body length: expected ");
                let e = u64_to_string(*expected as u64);
                push_str(&mut s, e.as_str());
                push_str(&mut s, " chars, got ");
                let g = u64_to_string(*got as u64);
                push_str(&mut s, g.as_str());
                s
            },
            ParseIdError::InvalidHex => to_owned("body is not valid 24-char lowercase hex"),
        }
    }
}

/// The description of a parse error.
pub open spec fn parse_error_message(e: ParseIdErrorView) -> Seq<char> {
    match e {
        ParseIdErrorView::MissingSeparator => "missing `_` separator between prefix and body"@,
        ParseIdErrorView::WrongPrefix { expected, got } => "wrong prefix: expected `"@ + expected
            + "`, got `"@ + got + "`"@,
        ParseIdErrorView::InvalidLength { expected, got } => "invalid body length: expected "@
            + decimal(expected) + " chars, got "@ + decimal(got),
        ParseIdErrorView::InvalidHex => "body is not valid 24-char lowercase hex"@,
    }
}

} // verus!
