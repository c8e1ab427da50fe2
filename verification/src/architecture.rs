//! Line parsers behind the source-layout rules the server holds itself to:
//! public data types live in `models.rs` unless a file declares itself an
//! implementation container, public functions come before private ones,
//! service methods that take an auth context declare the scope they need,
//! and `ObjectId` stays in the storage layer.
//!
//! Each parser reads one source line (or a run of lines) the way the rule's
//! scanner does: plain prefix and character tests, no Rust parsing.

use vstd::prelude::*;
use crate::origin::{regex_valid, regex_match, regex_compiles, regex_is_match};
use crate::text::{push_str, push_char, 
    chars_of, contains, ends_with, index_of, is_whitespace, lemma_index_of, lemma_index_of_unique,
    match_at, matches_at, push_chars, starts_with, str_contains, str_ends_with, str_eq,
    str_starts_with, trim_start, char_is_whitespace,
};

verus! {

// ── Shared pieces ──

/// The position of the first character of `s` satisfying `stop`, or
/// `s.len()` when none does.
pub open spec fn first_where(s: Seq<char>, stop: spec_fn(char) -> bool) -> int
    decreases s.len(),
{
    if s.len() == 0 {
        0
    } else if stop(s[0]) {
        0
    } else {
        1 + first_where(s.drop_first(), stop)
    }
}

/// `first_where` is the first stopping position.
pub proof fn lemma_first_where(s: Seq<char>, stop: spec_fn(char) -> bool, i: int)
    requires
        0 <= i <= s.len(),
        i < s.len() ==> stop(s[i]),
        forall|k: int| 0 <= k < i ==> !stop(#[trigger] s[k]),
    ensures
        first_where(s, stop) == i,
    decreases i,
{
    if i > 0 {
        assert(!stop(s[0]));
        assert forall|k: int| 0 <= k < i - 1 implies !stop(#[trigger] s.drop_first()[k]) by {
            assert(s.drop_first()[k] == s[k + 1]);
        }
        lemma_first_where(s.drop_first(), stop, i - 1);
    }
}

/// Index of the first non-whitespace character of `v` at or after `i`.
fn skip_whitespace(v: &Vec<char>, i: usize) -> (j: usize)
    requires
        i <= v.len(),
    ensures
        i <= j <= v.len(),
        trim_start(v@.skip(i as int)) == v@.skip(j as int),
{
    let mut j = i;
    while j < v.len() && char_is_whitespace(v[j])
        invariant
            i <= j <= v.len(),
            trim_start(v@.skip(i as int)) == trim_start(v@.skip(j as int)),
        decreases v.len() - j,
    {
        assert(v@.skip(j as int).drop_first() =~= v@.skip(j + 1));
        j = j + 1;
    }
    j
}

/// Whether `v[i..]` starts with `p`.
fn starts_at(v: &Vec<char>, i: usize, p: &str) -> (r: bool)
    requires
        i <= v.len(),
    ensures
        r == starts_with(v@.skip(i as int), p@),
{
    let w = chars_of(p);
    let r = match_at(v, &w, i);
    proof {
        if r {
            assert forall|k: int| 0 <= k < w@.len() implies v@.skip(i as int)[k] == w@[k] by {
                assert(v@.skip(i as int)[k] == v@[i + k]);
            }
        } else if starts_with(v@.skip(i as int), p@) {
            assert forall|k: int| 0 <= k < w@.len() implies v@[i + k] == w@[k] by {
                assert(v@.skip(i as int)[k] == v@[i + k]);
            }
        }
    }
    r
}

/// Index of the first `c` in `v` at or after `i`, or `v.len()`.
fn find_char_from(v: &Vec<char>, i: usize, c: char) -> (j: usize)
    requires
        i <= v.len(),
    ensures
        i <= j <= v.len(),
        j - i == index_of(v@.skip(i as int), c),
{
    let mut j = i;
    while j < v.len() && v[j] != c
        invariant
            i <= j <= v.len(),
            forall|k: int| i <= k < j ==> v@[k] != c,
        decreases v.len() - j,
    {
        j = j + 1;
    }
    proof {
        let s = v@.skip(i as int);
        assert forall|k: int| 0 <= k < j - i implies s[k] != c by {
            assert(s[k] == v@[i + k]);
        }
        if j < v.len() {
            assert(s[j - i] == v@[j as int]);
        }
        lemma_index_of_unique(s, c, j - i);
    }
    j
}

/// The characters `v[a..b]` as a string.
fn slice_string(v: &Vec<char>, a: usize, b: usize) -> (r: String)
    requires
        a <= b <= v.len(),
    ensures
        r@ == v@.subrange(a as int, b as int),
{
    let mut out = String::new();
    push_chars(&mut out, v, a, b);
    assert(out@ =~= v@.subrange(a as int, b as int));
    out
}

// ── impl_container! markers ──

/// The type named by an `impl_container!(Name)` marker line, with or
/// without a `crate::` prefix and leading whitespace.
pub open spec fn container_marker_name(line: Seq<char>) -> Option<Seq<char>> {
    let t = trim_start(line);
    let t2 = if starts_with(t, "crate::"@) {
        t.skip(7)
    } else {
        t
    };
    if starts_with(t2, "impl_container!("@) {
        let rest = t2.skip(16);
        let end = index_of(rest, ')');
        if 0 < end < rest.len() {
            Some(rest.take(end))
        } else {
            None
        }
    } else {
        None
    }
}

/// Parse an `impl_container!(Name)` marker line and return the type name.
pub fn parse_impl_container_marker(line: &str) -> (r: Option<String>)
    ensures
        match r {
            Some(name) => container_marker_name(line@) == Some(name@),
            None => container_marker_name(line@) is None,
        },
{
    proof {
        reveal_strlit("crate::");
        reveal_strlit("impl_container!(");
    }
    let v = chars_of(line);
    let t = skip_whitespace(&v, 0);
    assert(v@.skip(0) =~= line@);
    let t2 = if starts_at(&v, t, "crate::") {
        assert(v@.skip(t as int).skip(7) =~= v@.skip(t + 7));
        t + 7
    } else {
        t
    };
    if !starts_at(&v, t2, "impl_container!(") {
        return None;
    }
    let start = t2 + 16;
    assert(v@.skip(t2 as int).skip(16) =~= v@.skip(start as int));
    let end = find_char_from(&v, start, ')');
    if end == start || end == v.len() {
        return None;
    }
    assert(v@.skip(start as int).take(end - start) =~= v@.subrange(start as int, end as int));
    Some(slice_string(&v, start, end))
}

// ── Public type declarations ──

/// Where a type name ends: whitespace, `<`, `(`, `;`, `{` or `=`.
pub open spec fn type_name_stop(c: char) -> bool {
    is_whitespace(c) || c == '<' || c == '(' || c == ';' || c == '{' || c == '='
}

/// The name declared by a line starting `pub struct`, `pub enum` or
/// `pub type`; restricted visibility (`pub(..)`) does not count.
pub open spec fn pub_type_name(line: Seq<char>) -> Option<Seq<char>> {
    if starts_with(line, "pub "@) {
        let rest = line.skip(4);
        if rest.len() > 0 && rest[0] == '(' {
            None
        } else {
            let body = if starts_with(rest, "struct "@) {
                Some(rest.skip(7))
            } else if starts_with(rest, "enum "@) {
                Some(rest.skip(5))
            } else if starts_with(rest, "type "@) {
                Some(rest.skip(5))
            } else {
                None
            };
            match body {
                Some(b) => {
                    let end = first_where(b, |c: char| type_name_stop(c));
                    if end > 0 {
                        Some(b.take(end))
                    } else {
                        None
                    }
                },
                None => None,
            }
        }
    } else {
        None
    }
}

/// Index of the first character of `v` at or after `i` that ends a type name.
fn type_name_end(v: &Vec<char>, i: usize) -> (j: usize)
    requires
        i <= v.len(),
    ensures
        i <= j <= v.len(),
        j - i == first_where(v@.skip(i as int), |c: char| type_name_stop(c)),
{
    let mut j = i;
    while j < v.len()
        invariant
            i <= j <= v.len(),
            forall|k: int| i <= k < j ==> !type_name_stop(#[trigger] v@[k]),
        ensures
            i <= j <= v.len(),
            forall|k: int| i <= k < j ==> !type_name_stop(#[trigger] v@[k]),
            j < v.len() ==> type_name_stop(v@[j as int]),
        decreases v.len() - j,
    {
        let c = v[j];
        if char_is_whitespace(c) || c == '<' || c == '(' || c == ';' || c == '{' || c == '=' {
            break;
        }
        j = j + 1;
    }
    proof {
        let s = v@.skip(i as int);
        assert forall|k: int| 0 <= k < j - i implies !(|c: char| type_name_stop(c))(
            #[trigger] s[k],
        ) by {
            assert(s[k] == v@[i + k]);
        }
        if j < v.len() {
            assert(s[j - i] == v@[j as int]);
        }
        lemma_first_where(s, |c: char| type_name_stop(c), j - i);
    }
    j
}

/// Match `pub struct Foo`, `pub enum Foo` or `pub type Foo = ..` and return
/// the type name.
pub fn parse_pub_type_name(line: &str) -> (r: Option<String>)
    ensures
        match r {
            Some(name) => pub_type_name(line@) == Some(name@),
            None => pub_type_name(line@) is None,
        },
{
    proof {
        reveal_strlit("pub ");
        reveal_strlit("struct ");
        reveal_strlit("enum ");
        reveal_strlit("type ");
    }
    let v = chars_of(line);
    assert(v@.skip(0) =~= line@);
    if !starts_at(&v, 0, "pub ") {
        return None;
    }
    assert(line@.skip(4) =~= v@.skip(4));
    if v.len() > 4 && v[4] == '(' {
        return None;
    }
    let start = if starts_at(&v, 4, "struct ") {
        assert(v@.skip(4).skip(7) =~= v@.skip(11));
        11
    } else if starts_at(&v, 4, "enum ") {
        assert(v@.skip(4).skip(5) =~= v@.skip(9));
        9
    } else if starts_at(&v, 4, "type ") {
        assert(v@.skip(4).skip(5) =~= v@.skip(9));
        9
    } else {
        return None;
    };
    let end = type_name_end(&v, start);
    if end == start {
        return None;
    }
    assert(v@.skip(start as int).take(end - start) =~= v@.subrange(start as int, end as int));
    Some(slice_string(&v, start, end))
}

// ── Free functions ──

/// Visibility of a free function, for the stepdown rule.
#[derive(Clone, Copy, Debug, PartialEq, Eq, Structural)]
pub enum FnVisibility {
    Pub,
    Priv,
}

/// `s` without leading `async`, `unsafe`, `const` and `extern` modifiers
/// (each followed by a space), in any order and number.
pub open spec fn strip_modifiers(s: Seq<char>) -> Seq<char>
    decreases s.len(),
{
    if starts_with(s, "async "@) && 6 <= s.len() {
        proof {
            crate::text::lemma_trim_start_props(s.skip(6));
        }
        strip_modifiers(trim_start(s.skip(6)))
    } else if starts_with(s, "unsafe "@) && 7 <= s.len() {
        proof {
            crate::text::lemma_trim_start_props(s.skip(7));
        }
        strip_modifiers(trim_start(s.skip(7)))
    } else if starts_with(s, "const "@) && 6 <= s.len() {
        proof {
            crate::text::lemma_trim_start_props(s.skip(6));
        }
        strip_modifiers(trim_start(s.skip(6)))
    } else if starts_with(s, "extern "@) && 7 <= s.len() {
        proof {
            crate::text::lemma_trim_start_props(s.skip(7));
        }
        strip_modifiers(trim_start(s.skip(7)))
    } else {
        s
    }
}

/// Where a function name ends: whitespace, `<`, `(` or `;`.
pub open spec fn fn_name_stop(c: char) -> bool {
    is_whitespace(c) || c == '<' || c == '(' || c == ';'
}

/// `s` past an ABI string (`"C"`), when it starts with one whose closing
/// quote exists.
pub open spec fn skip_abi(s: Seq<char>) -> Seq<char> {
    if s.len() > 0 && s[0] == '"' {
        let after_open = s.drop_first();
        let close = index_of(after_open, '"');
        if close < after_open.len() {
            trim_start(after_open.skip(close + 1))
        } else {
            s
        }
    } else {
        s
    }
}

/// The visibility prefix of a trimmed line: `pub `, `pub(..)` (any
/// restriction counts as public), or none. `None` when `pub(` is unclosed.
pub open spec fn after_visibility(t: Seq<char>) -> Option<(bool, Seq<char>)> {
    if starts_with(t, "pub "@) {
        Some((true, t.skip(4)))
    } else if starts_with(t, "pub("@) {
        let r = t.skip(4);
        let close = index_of(r, ')');
        if close < r.len() {
            Some((true, trim_start(r.skip(close + 1))))
        } else {
            None
        }
    } else {
        Some((false, t))
    }
}

/// Whether a line declares a free function, with its visibility and name.
pub open spec fn free_fn_of(line: Seq<char>) -> Option<(FnVisibility, Seq<char>)> {
    match after_visibility(trim_start(line)) {
        None => None,
        Some((is_pub, after)) => {
            let rest = skip_abi(strip_modifiers(trim_start(after)));
            if starts_with(rest, "fn "@) {
                let af = rest.skip(3);
                let end = first_where(af, |c: char| fn_name_stop(c));
                if end > 0 {
                    Some(
                        (
                            if is_pub {
                                FnVisibility::Pub
                            } else {
                                FnVisibility::Priv
                            },
                            af.take(end),
                        ),
                    )
                } else {
                    None
                }
            } else {
                None
            }
        },
    }
}

/// Index after the modifiers of `v[i..]`.
fn skip_modifiers(v: &Vec<char>, i: usize) -> (j: usize)
    requires
        i <= v.len(),
    ensures
        i <= j <= v.len(),
        strip_modifiers(v@.skip(i as int)) == v@.skip(j as int),
    decreases v.len() - i,
{
    proof {
        reveal_strlit("async ");
        reveal_strlit("unsafe ");
        reveal_strlit("const ");
        reveal_strlit("extern ");
    }
    let len: usize = if starts_at(v, i, "async ") {
        6
    } else if starts_at(v, i, "unsafe ") {
        7
    } else if starts_at(v, i, "const ") {
        6
    } else if starts_at(v, i, "extern ") {
        7
    } else {
        return i;
    };
    assert(v@.skip(i as int).skip(len as int) =~= v@.skip(i + len));
    let k = skip_whitespace(v, i + len);
    skip_modifiers(v, k)
}

/// Index of the first character of `v` at or after `i` that ends a
/// function name.
fn fn_name_end(v: &Vec<char>, i: usize) -> (j: usize)
    requires
        i <= v.len(),
    ensures
        i <= j <= v.len(),
        j - i == first_where(v@.skip(i as int), |c: char| fn_name_stop(c)),
{
    let mut j = i;
    while j < v.len()
        invariant
            i <= j <= v.len(),
            forall|k: int| i <= k < j ==> !fn_name_stop(#[trigger] v@[k]),
        ensures
            i <= j <= v.len(),
            forall|k: int| i <= k < j ==> !fn_name_stop(#[trigger] v@[k]),
            j < v.len() ==> fn_name_stop(v@[j as int]),
        decreases v.len() - j,
    {
        let c = v[j];
        if char_is_whitespace(c) || c == '<' || c == '(' || c == ';' {
            break;
        }
        j = j + 1;
    }
    proof {
        let s = v@.skip(i as int);
        assert forall|k: int| 0 <= k < j - i implies !(|c: char| fn_name_stop(c))(
            #[trigger] s[k],
        ) by {
            assert(s[k] == v@[i + k]);
        }
        if j < v.len() {
            assert(s[j - i] == v@[j as int]);
        }
        lemma_first_where(s, |c: char| fn_name_stop(c), j - i);
    }
    j
}

/// Index after the visibility prefix of `v[t..]`, and whether it is public;
/// `None` when `pub(` is unclosed.
fn visibility_end(v: &Vec<char>, t: usize) -> (r: Option<(bool, usize)>)
    requires
        t <= v.len(),
    ensures
        match r {
            Some((p, j)) => t <= j <= v.len() && after_visibility(v@.skip(t as int)) == Some(
                (p, v@.skip(j as int)),
            ),
            None => after_visibility(v@.skip(t as int)) is None,
        },
{
    proof {
        reveal_strlit("pub ");
        reveal_strlit("pub(");
    }
    if starts_at(v, t, "pub ") {
        assert(v@.skip(t as int).skip(4) =~= v@.skip(t + 4));
        Some((true, t + 4))
    } else if starts_at(v, t, "pub(") {
        assert(v@.skip(t as int).skip(4) =~= v@.skip(t + 4));
        let close = find_char_from(v, t + 4, ')');
        if close == v.len() {
            return None;
        }
        assert(v@.skip(t + 4).skip(close - t - 4 + 1) =~= v@.skip(close + 1));
        let j = skip_whitespace(v, close + 1);
        Some((true, j))
    } else {
        Some((false, t))
    }
}

/// Classify a line as a free `fn` declaration and return its visibility and
/// name.
pub fn classify_free_fn(line: &str) -> (r: Option<(FnVisibility, String)>)
    ensures
        match r {
            Some((vis, name)) => free_fn_of(line@) == Some((vis, name@)),
            None => free_fn_of(line@) is None,
        },
{
    proof {
        reveal_strlit("fn ");
    }
    let v = chars_of(line);
    assert(v@.skip(0) =~= line@);
    let t = skip_whitespace(&v, 0);
    let (is_pub, after) = match visibility_end(&v, t) {
        Some(x) => x,
        None => return None,
    };
    let a = skip_whitespace(&v, after);
    let m = skip_modifiers(&v, a);
    let mut rest = m;
    if m < v.len() && v[m] == '"' {
        assert(v@.skip(m as int).drop_first() =~= v@.skip(m + 1));
        let close = find_char_from(&v, m + 1, '"');
        if close < v.len() {
            assert(v@.skip(m + 1).skip(close - m - 1 + 1) =~= v@.skip(close + 1));
            rest = skip_whitespace(&v, close + 1);
        }
    }
    if !starts_at(&v, rest, "fn ") {
        return None;
    }
    let name_start = rest + 3;
    assert(v@.skip(rest as int).skip(3) =~= v@.skip(name_start as int));
    let end = fn_name_end(&v, name_start);
    if end == name_start {
        return None;
    }
    assert(v@.skip(name_start as int).take(end - name_start) =~= v@.subrange(
        name_start as int,
        end as int,
    ));
    let vis = if is_pub {
        FnVisibility::Pub
    } else {
        FnVisibility::Priv
    };
    Some((vis, slice_string(&v, name_start, end)))
}

// ── Service methods and scope attributes ──

/// Where an async method name ends: whitespace or `(`.
pub open spec fn method_name_stop(c: char) -> bool {
    is_whitespace(c) || c == '('
}

/// The name of a `pub async fn name(` or `pub(..) async fn name(` line;
/// comments and lines where the name runs to the end do not count.
pub open spec fn pub_async_fn_name(line: Seq<char>) -> Option<Seq<char>> {
    let t = trim_start(line);
    if starts_with(t, "//"@) {
        None
    } else {
        match after_visibility(t) {
            Some((true, a)) => if starts_with(a, "async "@) && starts_with(a.skip(6), "fn "@) {
                let af = a.skip(6).skip(3);
                let end = first_where(af, |c: char| method_name_stop(c));
                if 0 < end < af.len() {
                    Some(af.take(end))
                } else {
                    None
                }
            } else {
                None
            },
            _ => None,
        }
    }
}

/// Parse `pub async fn <name>(` or `pub(crate) async fn <name>(` and return
/// the name.
pub fn parse_pub_async_fn_start(line: &str) -> (r: Option<String>)
    ensures
        match r {
            Some(name) => pub_async_fn_name(line@) == Some(name@),
            None => pub_async_fn_name(line@) is None,
        },
{
    proof {
        reveal_strlit("//");
        reveal_strlit("async ");
        reveal_strlit("fn ");
    }
    let v = chars_of(line);
    assert(v@.skip(0) =~= line@);
    let t = skip_whitespace(&v, 0);
    if starts_at(&v, t, "//") {
        return None;
    }
    let after = match visibility_end(&v, t) {
        Some((true, j)) => j,
        _ => return None,
    };
    if !starts_at(&v, after, "async ") {
        return None;
    }
    assert(v@.skip(after as int).skip(6) =~= v@.skip(after + 6));
    if !starts_at(&v, after + 6, "fn ") {
        return None;
    }
    let name_start = after + 9;
    assert(v@.skip(after + 6).skip(3) =~= v@.skip(name_start as int));
    let mut end = name_start;
    while end < v.len()
        invariant
            name_start <= end <= v.len(),
            forall|k: int| name_start <= k < end ==> !method_name_stop(#[trigger] v@[k]),
        ensures
            name_start <= end <= v.len(),
            forall|k: int| name_start <= k < end ==> !method_name_stop(#[trigger] v@[k]),
            end < v.len() ==> method_name_stop(v@[end as int]),
        decreases v.len() - end,
    {
        if char_is_whitespace(v[end]) || v[end] == '(' {
            break;
        }
        end = end + 1;
    }
    proof {
        let s = v@.skip(name_start as int);
        assert forall|k: int| 0 <= k < end - name_start implies !(|c: char| method_name_stop(c))(
            #[trigger] s[k],
        ) by {
            assert(s[k] == v@[name_start + k]);
        }
        if end < v.len() {
            assert(s[end - name_start] == v@[end as int]);
        }
        lemma_first_where(s, |c: char| method_name_stop(c), end - name_start);
    }
    if end == name_start || end == v.len() {
        return None;
    }
    assert(v@.skip(name_start as int).take(end - name_start) =~= v@.subrange(
        name_start as int,
        end as int,
    ));
    Some(slice_string(&v, name_start, end))
}

/// Whether the attribute block directly above line `i` (exclusive) holds a
/// scope attribute: walking up, blank and comment lines and other
/// attributes are passed over, anything else ends the block.
pub open spec fn requires_attr_above(lines: Seq<Seq<char>>, i: int) -> bool
    decreases i,
{
    if i <= 0 {
        false
    } else {
        let t = trim_start(lines[i - 1]);
        if t.len() == 0 || starts_with(t, "//"@) {
            requires_attr_above(lines, i - 1)
        } else if starts_with(t, "#["@) {
            let rest = t.skip(2);
            if starts_with(rest, "requires("@) || starts_with(rest, "requires_any("@) || starts_with(
                rest,
                "requires_public("@,
            ) {
                true
            } else {
                requires_attr_above(lines, i - 1)
            }
        } else {
            false
        }
    }
}

/// The lines of a file as character sequences.
pub open spec fn line_views(lines: Seq<&str>) -> Seq<Seq<char>> {
    lines.map_values(|l: &str| l@)
}

/// Walk backwards from `fn_line` looking for `#[requires(..)]`,
/// `#[requires_any(..)]` or `#[requires_public(..)]`.
pub fn has_requires_attribute_above(lines: &[&str], fn_line: usize) -> (r: bool)
    requires
        fn_line <= lines@.len(),
    ensures
        r == requires_attr_above(line_views(lines@), fn_line as int),
{
    proof {
        reveal_strlit("//");
        reveal_strlit("#[");
    }
    let mut i = fn_line;
    while i > 0
        invariant
            i <= fn_line <= lines@.len(),
            requires_attr_above(line_views(lines@), fn_line as int) == requires_attr_above(
                line_views(lines@),
                i as int,
            ),
        decreases i,
    {
        proof {
            reveal_strlit("//");
            reveal_strlit("#[");
        }
        let v = chars_of(lines[i - 1]);
        assert(line_views(lines@)[i - 1] == v@);
        let t = skip_whitespace(&v, 0);
        assert(v@.skip(0) =~= v@);
        if t == v.len() || starts_at(&v, t, "//") {
            assert(v@.skip(t as int).len() == 0 ==> v@.skip(t as int) =~= Seq::<char>::empty());
            i = i - 1;
            continue;
        }
        if starts_at(&v, t, "#[") {
            let a = t + 2;
            assert(v@.skip(t as int).skip(2) =~= v@.skip(a as int));
            if starts_at(&v, a, "requires(") || starts_at(&v, a, "requires_any(") || starts_at(
                &v,
                a,
                "requires_public(",
            ) {
                return true;
            }
            i = i - 1;
            continue;
        }
        return false;
    }
    false
}

/// The scanner's pattern for a `ctx: &AuthContext` (or `&mut AuthContext`)
/// parameter, spaces allowed around `:` and `&`.
pub const AUTH_CONTEXT_PARAM: &'static str = "\\bctx\\s*:\\s*&\\s*(?:mut\\s+)?AuthContext\\b";

/// Whether `sig` declares a `ctx: &AuthContext` parameter: the scanner's
/// pattern compiles and matches somewhere in `sig`.
pub open spec fn takes_auth_context(sig: Seq<char>) -> bool {
    regex_valid(AUTH_CONTEXT_PARAM@) && regex_match(AUTH_CONTEXT_PARAM@, sig)
}

/// Whether `sig` declares a `ctx: &AuthContext` parameter.
fn signature_takes_auth_context(sig: &str) -> (r: bool)
    ensures
        r == takes_auth_context(sig@),
{
    if !regex_compiles(AUTH_CONTEXT_PARAM) {
        return false;
    }
    regex_is_match(AUTH_CONTEXT_PARAM, sig)
}

// ── Scope attributes on service methods ──

/// Opening minus closing parentheses in `s`.
pub open spec fn paren_balance(s: Seq<char>) -> int
    decreases s.len(),
{
    if s.len() == 0 {
        0
    } else {
        paren_balance(s.drop_last()) + (if s.last() == '(' {
            1int
        } else if s.last() == ')' {
            -1int
        } else {
            0int
        })
    }
}

proof fn lemma_paren_balance_concat(a: Seq<char>, b: Seq<char>)
    ensures
        paren_balance(a + b) == paren_balance(a) + paren_balance(b),
    decreases b.len(),
{
    if b.len() > 0 {
        assert((a + b).drop_last() =~= a + b.drop_last());
        lemma_paren_balance_concat(a, b.drop_last());
    } else {
        assert(a + b =~= a);
    }
}

/// The signature of the function whose header starts at line `k`, with
/// `acc` read so far: lines are taken whole, each followed by a newline,
/// until a `(` has been seen and the parentheses balance, or the lines run
/// out.
pub open spec fn signature_from(lines: Seq<Seq<char>>, k: int, acc: Seq<char>) -> Seq<char>
    decreases lines.len() - k,
{
    if k < 0 || k >= lines.len() {
        acc
    } else {
        let next = acc + lines[k] + seq!['\n'];
        if next.contains('(') && paren_balance(next) == 0 {
            next
        } else {
            signature_from(lines, k + 1, next)
        }
    }
}

/// The signature starting at line `start`.
pub open spec fn signature_at(lines: Seq<Seq<char>>, start: int) -> Seq<char> {
    signature_from(lines, start, Seq::empty())
}

/// Opening parentheses in `s`.
pub open spec fn paren_opens(s: Seq<char>) -> int
    decreases s.len(),
{
    if s.len() == 0 {
        0
    } else {
        paren_opens(s.drop_last()) + (if s.last() == '(' {
            1int
        } else {
            0int
        })
    }
}

proof fn lemma_paren_opens_bound(s: Seq<char>)
    ensures
        0 <= paren_opens(s) <= s.len(),
        (paren_opens(s) > 0) <==> s.contains('('),
    decreases s.len(),
{
    if s.len() > 0 {
        lemma_paren_opens_bound(s.drop_last());
        let d = s.drop_last();
        if d.contains('(') {
            let w = choose|w: int| 0 <= w < d.len() && d[w] == '(';
            assert(s[w] == '(');
        }
        if s.contains('(') && s.last() != '(' {
            let w = choose|w: int| 0 <= w < s.len() && s[w] == '(';
            assert(w < s.len() - 1);
            assert(d[w] == '(');
        }
        if s.last() == '(' {
            assert(s[s.len() - 1] == '(');
        }
    } else {
        assert(!s.contains('('));
    }
}

/// Read forward from line `start` until the signature's parentheses close,
/// joining the lines (each with its newline) into one string.
pub fn collect_signature(lines: &[&str], start: usize) -> (r: String)
    ensures
        r@ == signature_at(line_views(lines@), start as int),
{
    let ghost lv = line_views(lines@);
    if start >= lines.len() {
        return String::new();
    }
    let mut sig = String::new();
    let mut opens: u128 = 0;
    let mut closes: u128 = 0;
    let mut k = start;
    proof {
        lemma_paren_opens_bound(sig@);
    }
    while k < lines.len()
        invariant_except_break
            start <= k <= lines@.len(),
            lv == line_views(lines@),
            opens - closes == paren_balance(sig@),
            opens == paren_opens(sig@),
            opens + closes <= sig@.len(),
            sig@.len() <= (k - start) * (usize::MAX as int + 1),
            signature_at(lv, start as int) == signature_from(lv, k as int, sig@),
        ensures
            signature_at(lv, start as int) == sig@,
        decreases lines@.len() - k,
    {
        let line = lines[k];
        let ghost before = sig@;
        push_str(&mut sig, line);
        push_char(&mut sig, '\n');
        let v = chars_of(line);
        let n = v.len();
        assert(lv[k as int] == line@);
        let mut j: usize = 0;
        proof {
            assert(v@.len() == n);
            assert(before.len() <= usize::MAX * (usize::MAX as int + 1)) by (nonlinear_arith)
                requires
                    before.len() <= (k - start) * (usize::MAX as int + 1),
                    k - start <= usize::MAX,
                    k >= start,
            ;
            let m = usize::MAX as int;
            assert(m * (m + 1) + m <= u128::MAX) by (nonlinear_arith)
                requires
                    0 <= m < 0x1_0000_0000_0000_0000int,
            ;
            assert(v@.take(0) =~= Seq::<char>::empty());
        }
        while j < v.len()
            invariant
                j <= v@.len(),
                v@ == line@,
                v@.len() <= usize::MAX,
                before.len() <= usize::MAX * (usize::MAX as int + 1),
                usize::MAX * (usize::MAX as int + 1) + usize::MAX <= u128::MAX,
                opens - closes == paren_balance(before) + paren_balance(v@.take(j as int)),
                opens == paren_opens(before) + paren_opens(v@.take(j as int)),
                opens + closes <= before.len() + j,
            decreases v@.len() - j,
        {
            proof {
                assert(v@.take(j + 1).drop_last() =~= v@.take(j as int));
            }
            let c = v[j];
            if c == '(' {
                opens = opens + 1;
            } else if c == ')' {
                closes = closes + 1;
            }
            j = j + 1;
        }
        proof {
            assert(v@.take(v@.len() as int) =~= line@);
            let nl = seq!['\n'];
            assert(sig@ =~= before + line@ + nl);
            lemma_paren_balance_concat(before, line@);
            lemma_paren_balance_concat(before + line@, nl);
            lemma_paren_opens_concat(before, line@);
            lemma_paren_opens_concat(before + line@, nl);
            assert(nl.drop_last() =~= Seq::<char>::empty());
            assert(nl.last() == '\n');
            assert(paren_balance(nl) == paren_balance(nl.drop_last()) + 0);
            assert(paren_opens(nl) == paren_opens(nl.drop_last()) + 0);
            assert(sig@.len() <= (k + 1 - start) * (usize::MAX as int + 1)) by (nonlinear_arith)
                requires
                    sig@.len() == before.len() + line@.len() + 1,
                    before.len() <= (k - start) * (usize::MAX as int + 1),
                    line@.len() <= usize::MAX,
            ;
            lemma_paren_opens_bound(sig@);
        }
        if opens > 0 && opens == closes {
            break;
        }
        k = k + 1;
    }
    sig
}

proof fn lemma_paren_opens_concat(a: Seq<char>, b: Seq<char>)
    ensures
        paren_opens(a + b) == paren_opens(a) + paren_opens(b),
    decreases b.len(),
{
    if b.len() > 0 {
        assert((a + b).drop_last() =~= a + b.drop_last());
        lemma_paren_opens_concat(a, b.drop_last());
    } else {
        assert(a + b =~= a);
    }
}

/// Whether line `i` starts a public async method that takes the caller's
/// `AuthContext` without a scope attribute above it.
pub open spec fn unguarded_auth_method_at(lines: Seq<Seq<char>>, i: int) -> bool {
    &&& pub_async_fn_name(lines[i]) is Some
    &&& takes_auth_context(signature_at(lines, i))
    &&& !requires_attr_above(lines, i)
}

/// The unguarded methods among the first `n` lines, as `(line index,
/// method name)` in line order.
pub open spec fn unguarded_auth_methods_upto(lines: Seq<Seq<char>>, n: int) -> Seq<(int, Seq<char>)>
    decreases n,
{
    if n <= 0 {
        Seq::empty()
    } else {
        let before = unguarded_auth_methods_upto(lines, n - 1);
        if unguarded_auth_method_at(lines, n - 1) {
            before.push((n - 1, pub_async_fn_name(lines[n - 1])->0))
        } else {
            before
        }
    }
}

/// The view of the scanner's findings.
pub open spec fn findings_view(v: Seq<(usize, String)>) -> Seq<(int, Seq<char>)> {
    v.map_values(|f: (usize, String)| (f.0 as int, f.1@))
}

/// The public async methods of a service file that take `&AuthContext`
/// but carry no `#[requires(..)]`, `#[requires_any(..)]` or
/// `#[requires_public(..)]`: `(line index, method name)` in line order.
pub fn unguarded_auth_methods(lines: &[&str]) -> (r: Vec<(usize, String)>)
    ensures
        findings_view(r@) == unguarded_auth_methods_upto(line_views(lines@), lines@.len() as int),
{
    let ghost lv = line_views(lines@);
    let mut out: Vec<(usize, String)> = Vec::new();
    let mut i: usize = 0;
    assert(findings_view(out@) =~= unguarded_auth_methods_upto(lv, 0));
    while i < lines.len()
        invariant
            i <= lines@.len(),
            lv == line_views(lines@),
            findings_view(out@) == unguarded_auth_methods_upto(lv, i as int),
        decreases lines@.len() - i,
    {
        let ghost prev = out@;
        assert(lv[i as int] == lines@[i as int]@);
        if let Some(name) = parse_pub_async_fn_start(lines[i]) {
            let signature = collect_signature(lines, i);
            if signature_takes_auth_context(signature.as_str()) && !has_requires_attribute_above(lines, i) {
                out.push((i, name));
                assert(findings_view(out@) =~= findings_view(prev).push((i as int, out@[prev.len() as int].1@)));
            }
        }
        i = i + 1;
    }
    out
}

// ── Public data types outside models files ──

/// Whether some line of the file declares `name` a container with
/// `impl_container!(name)`.
pub open spec fn container_exempt(lines: Seq<Seq<char>>, name: Seq<char>) -> bool {
    exists|j: int| 0 <= j < lines.len() && #[trigger] container_marker_name(lines[j]) == Some(name)
}

/// The public data type declared on line `i`, unless it is an exempt
/// container.
pub open spec fn pub_type_violation_at(lines: Seq<Seq<char>>, i: int) -> Option<Seq<char>> {
    match pub_type_name(trim_start(lines[i])) {
        Some(n) => if container_exempt(lines, n) {
            None
        } else {
            Some(n)
        },
        None => None,
    }
}

/// The public data types declared among the first `n` lines, as `(line
/// index, name)` in line order.
pub open spec fn pub_type_violations_upto(lines: Seq<Seq<char>>, n: int) -> Seq<(int, Seq<char>)>
    decreases n,
{
    if n <= 0 {
        Seq::empty()
    } else {
        let before = pub_type_violations_upto(lines, n - 1);
        match pub_type_violation_at(lines, n - 1) {
            Some(name) => before.push((n - 1, name)),
            None => before,
        }
    }
}

fn is_container(lines: &[&str], name: &str) -> (r: bool)
    ensures
        r == container_exempt(line_views(lines@), name@),
{
    let ghost lv = line_views(lines@);
    let mut m: usize = 0;
    while m < lines.len()
        invariant
            m <= lines@.len(),
            lv == line_views(lines@),
            forall|k: int| 0 <= k < m ==> #[trigger] container_marker_name(lv[k]) != Some(name@),
        decreases lines@.len() - m,
    {
        assert(lv[m as int] == lines@[m as int]@);
        if let Some(marked) = parse_impl_container_marker(lines[m]) {
            if str_eq(marked.as_str(), name) {
                assert(container_marker_name(lv[m as int]) == Some(name@));
                return true;
            }
        }
        m = m + 1;
    }
    false
}

/// The public data types a file declares outside its containers, as
/// `(line index, name)` in line order: lines starting (after indentation)
/// `pub struct`, `pub enum` or `pub type`, unless the file marks the type
/// with `impl_container!`.
pub fn pub_type_violations(lines: &[&str]) -> (r: Vec<(usize, String)>)
    ensures
        findings_view(r@) == pub_type_violations_upto(line_views(lines@), lines@.len() as int),
{
    let ghost lv = line_views(lines@);
    let mut out: Vec<(usize, String)> = Vec::new();
    let mut i: usize = 0;
    assert(findings_view(out@) =~= pub_type_violations_upto(lv, 0));
    while i < lines.len()
        invariant
            i <= lines@.len(),
            lv == line_views(lines@),
            findings_view(out@) == pub_type_violations_upto(lv, i as int),
        decreases lines@.len() - i,
    {
        let ghost prev = out@;
        assert(lv[i as int] == lines@[i as int]@);
        let v = chars_of(lines[i]);
        let t = skip_whitespace(&v, 0);
        assert(v@.skip(0) =~= v@);
        let trimmed = slice_string(&v, t, v.len());
        assert(trimmed@ =~= v@.skip(t as int));
        if let Some(name) = parse_pub_type_name(trimmed.as_str()) {
            if !is_container(lines, name.as_str()) {
                out.push((i, name));
                assert(findings_view(out@) =~= findings_view(prev).push((i as int, out@[prev.len() as int].1@)));
            }
        }
        i = i + 1;
    }
    out
}

// ── The stepdown rule ──

/// Opening minus closing braces in `s`.
pub open spec fn brace_balance(s: Seq<char>) -> int
    decreases s.len(),
{
    if s.len() == 0 {
        0
    } else {
        brace_balance(s.drop_last()) + (if s.last() == '{' {
            1int
        } else if s.last() == '}' {
            -1int
        } else {
            0int
        })
    }
}

/// The brace depth at the start of line `i`.
pub open spec fn depth_before(lines: Seq<Seq<char>>, i: int) -> int
    decreases i,
{
    if i <= 0 {
        0
    } else {
        depth_before(lines, i - 1) + brace_balance(lines[i - 1])
    }
}

/// The first free function of visibility `vis` declared at depth 0 among
/// the first `n` lines: `(line index, name)`.
pub open spec fn first_free_fn_upto(lines: Seq<Seq<char>>, n: int, vis: FnVisibility) -> Option<(int, Seq<char>)>
    decreases n,
{
    if n <= 0 {
        None
    } else {
        match first_free_fn_upto(lines, n - 1, vis) {
            Some(found) => Some(found),
            None => if depth_before(lines, n - 1) == 0 {
                match free_fn_of(lines[n - 1]) {
                    Some((v, name)) => if v == vis {
                        Some((n - 1, name))
                    } else {
                        None
                    },
                    None => None,
                }
            } else {
                None
            },
        }
    }
}

/// A file breaks the stepdown rule when its first private free function
/// comes before its first public one: `(first private, first public)`.
pub open spec fn stepdown_violation_of(lines: Seq<Seq<char>>) -> Option<((int, Seq<char>), (int, Seq<char>))> {
    match (first_free_fn_upto(lines, lines.len() as int, FnVisibility::Priv), first_free_fn_upto(
        lines,
        lines.len() as int,
        FnVisibility::Pub,
    )) {
        (Some(p), Some(q)) => if p.0 < q.0 {
            Some((p, q))
        } else {
            None
        },
        _ => None,
    }
}

/// Opening braces in `s`.
pub open spec fn brace_opens(s: Seq<char>) -> int
    decreases s.len(),
{
    if s.len() == 0 {
        0
    } else {
        brace_opens(s.drop_last()) + (if s.last() == '{' {
            1int
        } else {
            0int
        })
    }
}

fn line_brace_counts(line: &str) -> (r: (usize, usize))
    ensures
        r.0 - r.1 == brace_balance(line@),
        r.0 == brace_opens(line@),
        r.0 + r.1 <= line@.len(),
        r.0 + r.1 <= usize::MAX,
{
    let v = chars_of(line);
    let n = v.len();
    let mut opens: usize = 0;
    let mut closes: usize = 0;
    let mut j: usize = 0;
    assert(v@.take(0) =~= Seq::<char>::empty());
    while j < n
        invariant
            j <= n,
            n == v@.len(),
            v@ == line@,
            opens - closes == brace_balance(v@.take(j as int)),
            opens == brace_opens(v@.take(j as int)),
            opens + closes <= j,
        decreases n - j,
    {
        proof {
            assert(v@.take(j + 1).drop_last() =~= v@.take(j as int));
        }
        if v[j] == '{' {
            opens = opens + 1;
        } else if v[j] == '}' {
            closes = closes + 1;
        }
        j = j + 1;
    }
    assert(v@.take(n as int) =~= line@);
    (opens, closes)
}

/// Opening braces of the first `i` lines.
pub open spec fn opens_before(lines: Seq<Seq<char>>, i: int) -> int
    decreases i,
{
    if i <= 0 {
        0
    } else {
        opens_before(lines, i - 1) + brace_opens(lines[i - 1])
    }
}

/// Check a file against the stepdown rule: free functions are read at
/// brace depth 0, and the first private one must not come before the first
/// public one. `Some((first private, first public))` as `(line index,
/// name)` when it does.
pub fn stepdown_violation(lines: &[&str]) -> (r: Option<((usize, String), (usize, String))>)
    ensures
        match r {
            Some((p, q)) => stepdown_violation_of(line_views(lines@)) == Some(
                ((p.0 as int, p.1@), (q.0 as int, q.1@)),
            ),
            None => stepdown_violation_of(line_views(lines@)) is None,
        },
{
    let ghost lv = line_views(lines@);
    let mut opens: u128 = 0;
    let mut closes: u128 = 0;
    let mut first_pub: Option<(usize, String)> = None;
    let mut first_priv: Option<(usize, String)> = None;
    let mut i: usize = 0;
    while i < lines.len()
        invariant
            i <= lines@.len(),
            lv == line_views(lines@),
            opens - closes == depth_before(lv, i as int),
            opens == opens_before(lv, i as int),
            opens + closes <= i * usize::MAX,
            match first_pub {
                Some(x) => first_free_fn_upto(lv, i as int, FnVisibility::Pub) == Some((x.0 as int, x.1@)),
                None => first_free_fn_upto(lv, i as int, FnVisibility::Pub) is None,
            },
            match first_priv {
                Some(x) => first_free_fn_upto(lv, i as int, FnVisibility::Priv) == Some((x.0 as int, x.1@)),
                None => first_free_fn_upto(lv, i as int, FnVisibility::Priv) is None,
            },
        decreases lines@.len() - i,
    {
        assert(lv[i as int] == lines@[i as int]@);
        if opens == closes {
            if let Some((vis, name)) = classify_free_fn(lines[i]) {
                match vis {
                    FnVisibility::Pub => {
                        if first_pub.is_none() {
                            first_pub = Some((i, name));
                        }
                    },
                    FnVisibility::Priv => {
                        if first_priv.is_none() {
                            first_priv = Some((i, name));
                        }
                    },
                }
            }
        }
        let (o, c) = line_brace_counts(lines[i]);
        proof {
            let m = usize::MAX as int;
            assert((i + 1) * m == i * m + m) by (nonlinear_arith);
            assert((i + 1) * m <= m * m) by (nonlinear_arith)
                requires
                    0 <= i < m,
            ;
            assert(m * m <= u128::MAX) by (nonlinear_arith)
                requires
                    0 <= m < 0x1_0000_0000_0000_0000int,
            ;
        }
        opens = opens + o as u128;
        closes = closes + c as u128;
        i = i + 1;
    }
    match (&first_priv, &first_pub) {
        (Some(p), Some(q)) => {
            if p.0 < q.0 {
                Some(((p.0, p.1.clone()), (q.0, q.1.clone())))
            } else {
                None
            }
        },
        _ => None,
    }
}

// ── ObjectId confinement ──

/// Files always allowed to mention `ObjectId`.
pub open spec fn is_allowlisted_file(rel: Seq<char>) -> bool {
    rel == "src/app.rs"@ || rel == "src/main.rs"@ || rel == "src/core/db.rs"@ || rel
        == "src/core/public_id/mod.rs"@ || rel == "src/architecture_tests.rs"@
}

/// Whether a source file (path relative to the crate) may mention
/// `ObjectId`: allowlisted files, migrations, repositories, and test files
/// that sit beside a non-test source file (`tests_file_with_source_sibling`,
/// which only the filesystem can tell).
pub open spec fn object_id_allowed(rel: Seq<char>, tests_file_with_source_sibling: bool) -> bool {
    is_allowlisted_file(rel) || starts_with(rel, "src/migrations/"@) || ends_with(rel, "/repo.rs"@)
        || contains(rel, "/repos/"@) || tests_file_with_source_sibling
}

/// Whether the file at `rel_str` may mention `ObjectId`.
pub fn is_object_id_allowed(rel_str: &str, tests_file_with_source_sibling: bool) -> (r: bool)
    ensures
        r == object_id_allowed(rel_str@, tests_file_with_source_sibling),
{
    str_eq(rel_str, "src/app.rs") || str_eq(rel_str, "src/main.rs") || str_eq(
        rel_str,
        "src/core/db.rs",
    ) || str_eq(rel_str, "src/core/public_id/mod.rs") || str_eq(
        rel_str,
        "src/architecture_tests.rs",
    ) || str_starts_with(rel_str, "src/migrations/") || str_ends_with(rel_str, "/repo.rs")
        || str_contains(rel_str, "/repos/") || tests_file_with_source_sibling
}

/// An identifier byte: ASCII letter, digit or `_`.
pub open spec fn is_word_byte(b: u8) -> bool {
    (65 <= b && b <= 90) || (97 <= b && b <= 122) || (48 <= b && b <= 57) || b == 95
}

/// The bytes of `ObjectId`.
pub open spec fn object_id_bytes() -> Seq<u8> {
    seq![79u8, 98u8, 106u8, 101u8, 99u8, 116u8, 73u8, 100u8]
}

/// `ObjectId` as a whole word at byte `i` of `b`.
pub open spec fn object_id_word_at(b: Seq<u8>, i: int) -> bool {
    &&& 0 <= i
    &&& i + 8 <= b.len()
    &&& b.subrange(i, i + 8) == object_id_bytes()
    &&& (i == 0 || !is_word_byte(b[i - 1]))
    &&& (i + 8 == b.len() || !is_word_byte(b[i + 8]))
}

/// Whether the UTF-8 text `b` mentions `ObjectId` as a whole word.
pub open spec fn mentions_object_id(b: Seq<u8>) -> bool {
    exists|i: int| #[trigger] object_id_word_at(b, i)
}

fn word_byte(b: u8) -> (r: bool)
    ensures
        r == is_word_byte(b),
{
    (65 <= b && b <= 90) || (97 <= b && b <= 122) || (48 <= b && b <= 57) || b == 95
}

/// Whole-word match for `ObjectId`; `MyObjectIdRef` or `ObjectIds` do not
/// count.
pub fn contains_object_id_word(s: &str) -> (r: bool)
    ensures
        r == mentions_object_id(vstd::utf8::encode_utf8(s@)),
{
    let bytes = s.as_bytes();
    let n = bytes.len();
    let needle: [u8; 8] = [79, 98, 106, 101, 99, 116, 73, 100];
    assert(needle@ =~= object_id_bytes());
    if n < 8 {
        assert forall|i: int| !object_id_word_at(bytes@, i) by {}
        return false;
    }
    let mut i: usize = 0;
    while i <= n - 8
        invariant
            bytes@ == vstd::utf8::encode_utf8(s@),
            n == bytes@.len(),
            8 <= n,
            i <= n - 7,
            needle@ == object_id_bytes(),
            forall|k: int| 0 <= k < i ==> !object_id_word_at(bytes@, k),
        decreases n - i,
    {
        let mut j: usize = 0;
        while j < 8 && bytes[i + j] == needle[j]
            invariant
                j <= 8,
                i + 8 <= n,
                n == bytes@.len(),
                forall|k: int| 0 <= k < j ==> bytes@[i + k] == needle@[k],
            decreases 8 - j,
        {
            j = j + 1;
        }
        if j == 8 {
            assert(bytes@.subrange(i as int, i + 8) =~= object_id_bytes());
            let prev_ok = i == 0 || !word_byte(bytes[i - 1]);
            let next_ok = i + 8 == n || !word_byte(bytes[i + 8]);
            if prev_ok && next_ok {
                assert(object_id_word_at(bytes@, i as int));
                return true;
            }
        } else {
            assert(bytes@.subrange(i as int, i + 8)[j as int] != object_id_bytes()[j as int]);
        }
        i = i + 1;
    }
    assert forall|k: int| !object_id_word_at(bytes@, k) by {
        if 0 <= k && k < i {
        }
    }
    false
}

/// The position of the first `needle` in `s` at or after `i`, or `s.len()`.
pub open spec fn find_from(s: Seq<char>, needle: Seq<char>, i: int) -> int
    decreases s.len() - i,
{
    if i < 0 || i + needle.len() > s.len() {
        s.len() as int
    } else if matches_at(s, needle, i) {
        i
    } else {
        find_from(s, needle, i + 1)
    }
}

/// A line without its `//` comment.
pub open spec fn without_line_comment(line: Seq<char>) -> Seq<char> {
    line.take(find_from(line, "//"@, 0))
}

/// Strip a `//` line comment.
pub fn strip_line_comment(line: &str) -> (r: String)
    ensures
        r@ == without_line_comment(line@),
{
    proof {
        reveal_strlit("//");
    }
    let v = chars_of(line);
    let w = chars_of("//");
    let n = v.len();
    let mut i: usize = 0;
    while n - i >= 2 && !match_at(&v, &w, i)
        invariant
            v@ == line@,
            w@ == "//"@,
            n == v@.len(),
            i <= n,
            find_from(line@, "//"@, 0) == find_from(line@, "//"@, i as int),
        decreases n - i,
    {
        i = i + 1;
    }
    let end = if n - i >= 2 {
        i
    } else {
        n
    };
    assert(find_from(line@, "//"@, i as int) == end);
    slice_string(&v, 0, end)
}

/// Whether a line mentions `ObjectId` as a whole word outside a `//`
/// comment.
pub open spec fn line_mentions_object_id(line: Seq<char>) -> bool {
    mentions_object_id(vstd::utf8::encode_utf8(without_line_comment(line)))
}

/// Whether any line of a file mentions `ObjectId` as a whole word outside
/// a `//` comment.
pub fn file_mentions_object_id(lines: &[&str]) -> (r: bool)
    ensures
        r == exists|i: int| 0 <= i < lines@.len() && line_mentions_object_id(#[trigger] lines@[i]@),
{
    let mut i: usize = 0;
    while i < lines.len()
        invariant
            i <= lines@.len(),
            forall|j: int| 0 <= j < i ==> !line_mentions_object_id(#[trigger] lines@[j]@),
        decreases lines@.len() - i,
    {
        let code = strip_line_comment(lines[i]);
        if contains_object_id_word(code.as_str()) {
            assert(line_mentions_object_id(lines@[i as int]@));
            return true;
        }
        i = i + 1;
    }
    false
}

} // verus!
