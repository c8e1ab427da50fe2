//! Escaping for the three contexts the resolver writes user text into: HTML
//! text and attributes, JavaScript string literals, and URL query values.

use vstd::prelude::*;
use crate::text::{chars_of, push_str, push_char, char_from_ascii};

verus! {

// ── HTML ──

/// The HTML spelling of one character.
pub open spec fn html_escape_char(c: char) -> Seq<char> {
    if c == '&' {
        "&amp;"@
    } else if c == '<' {
        "&lt;"@
    } else if c == '>' {
        "&gt;"@
    } else if c == '"' {
        "&quot;"@
    } else if c == '\'' {
        "&#x27;"@
    } else {
        seq![c]
    }
}

/// `s` with `&`, `<`, `>`, `"` and `'` replaced by their entities.
pub open spec fn html_escaped(s: Seq<char>) -> Seq<char>
    decreases s.len(),
{
    if s.len() == 0 {
        Seq::empty()
    } else {
        html_escaped(s.drop_last()) + html_escape_char(s.last())
    }
}

/// The characters that would end an attribute or open markup.
pub open spec fn is_markup_char(c: char) -> bool {
    c == '<' || c == '>' || c == '"' || c == '\''
}

fn html_escape_piece(c: char) -> (r: &'static str)
    requires
        c == '&' || c == '<' || c == '>' || c == '"' || c == '\'',
    ensures
        r@ == html_escape_char(c),
{
    if c == '&' {
        "&amp;"
    } else if c == '<' {
        "&lt;"
    } else if c == '>' {
        "&gt;"
    } else if c == '"' {
        "&quot;"
    } else {
        "&#x27;"
    }
}

/// Escape text for an HTML text node or a quoted attribute value.
pub fn html_escape(s: &str) -> (r: String)
    ensures
        r@ == html_escaped(s@),
{
    let v = chars_of(s);
    let mut out = String::new();
    let mut i: usize = 0;
    while i < v.len()
        invariant
            i <= v.len(),
            out@ == html_escaped(v@.subrange(0, i as int)),
        decreases v.len() - i,
    {
        let c = v[i];
        if c == '&' || c == '<' || c == '>' || c == '"' || c == '\'' {
            push_str(&mut out, html_escape_piece(c));
        } else {
            push_char(&mut out, c);
        }
        assert(v@.subrange(0, i + 1).drop_last() =~= v@.subrange(0, i as int));
        i = i + 1;
    }
    assert(v@.subrange(0, v@.len() as int) =~= v@);
    out
}

/// Escaped HTML never holds a raw `<`, `>`, `"` or `'`, whatever the input:
/// user text cannot open a tag or leave an attribute.
pub proof fn lemma_html_escaped_has_no_markup(s: Seq<char>)
    ensures
        forall|i: int| 0 <= i < html_escaped(s).len() ==> !is_markup_char(#[trigger] html_escaped(s)[i]),
    decreases s.len(),
{
    reveal_strlit("&amp;");
    reveal_strlit("&lt;");
    reveal_strlit("&gt;");
    reveal_strlit("&quot;");
    reveal_strlit("&#x27;");
    if s.len() > 0 {
        lemma_html_escaped_has_no_markup(s.drop_last());
        let a = html_escaped(s.drop_last());
        let b = html_escape_char(s.last());
        assert forall|i: int| 0 <= i < html_escaped(s).len() implies !is_markup_char(
            #[trigger] html_escaped(s)[i],
        ) by {
            if i < a.len() {
                assert(html_escaped(s)[i] == a[i]);
            } else {
                assert(html_escaped(s)[i] == b[i - a.len()]);
            }
        }
    }
}

/// Escaping distributes over concatenation.
pub proof fn lemma_html_escaped_concat(a: Seq<char>, b: Seq<char>)
    ensures
        html_escaped(a + b) == html_escaped(a) + html_escaped(b),
    decreases b.len(),
{
    if b.len() == 0 {
        assert(a + b =~= a);
        assert(html_escaped(a) + html_escaped(b) =~= html_escaped(a));
    } else {
        assert((a + b).drop_last() =~= a + b.drop_last());
        assert((a + b).last() == b.last());
        lemma_html_escaped_concat(a, b.drop_last());
        assert(html_escaped(a) + html_escaped(b.drop_last()) + html_escape_char(b.last())
            =~= html_escaped(a) + (html_escaped(b.drop_last()) + html_escape_char(b.last())));
    }
}

// ── JavaScript string literals ──

/// The spelling of one character inside a quoted JavaScript string.
pub open spec fn js_escape_char(c: char) -> Seq<char> {
    if c == '\\' {
        "\\\\"@
    } else if c == '"' {
        "\\\""@
    } else if c == '\'' {
        "\\'"@
    } else if c == '\n' {
        "\\n"@
    } else if c == '\r' {
        "\\r"@
    } else if c == '\0' {
        "\\0"@
    } else if c == '<' {
        "\\x3c"@
    } else if c == '>' {
        "\\x3e"@
    } else if c == '&' {
        "\\x26"@
    } else if c == '/' {
        "\\/"@
    } else if c == '\u{2028}' {
        "\\u2028"@
    } else if c == '\u{2029}' {
        "\\u2029"@
    } else {
        seq![c]
    }
}

/// `s` escaped for a JavaScript string literal inside an HTML `<script>`.
pub open spec fn js_escaped(s: Seq<char>) -> Seq<char>
    decreases s.len(),
{
    if s.len() == 0 {
        Seq::empty()
    } else {
        js_escaped(s.drop_last()) + js_escape_char(s.last())
    }
}

/// A character that `js_escape` rewrites.
pub open spec fn is_js_special(c: char) -> bool {
    c == '\\' || c == '"' || c == '\'' || c == '\n' || c == '\r' || c == '\0' || c == '<' || c
        == '>' || c == '&' || c == '/' || c == '\u{2028}' || c == '\u{2029}'
}

fn js_escape_piece(c: char) -> (r: &'static str)
    requires
        is_js_special(c),
    ensures
        r@ == js_escape_char(c),
{
    if c == '\\' {
        "\\\\"
    } else if c == '"' {
        "\\\""
    } else if c == '\'' {
        "\\'"
    } else if c == '\n' {
        "\\n"
    } else if c == '\r' {
        "\\r"
    } else if c == '\0' {
        "\\0"
    } else if c == '<' {
        "\\x3c"
    } else if c == '>' {
        "\\x3e"
    } else if c == '&' {
        "\\x26"
    } else if c == '/' {
        "\\/"
    } else if c == '\u{2028}' {
        "\\u2028"
    } else {
        "\\u2029"
    }
}

/// Escape text for a quoted JavaScript string literal in a page.
pub fn js_escape(s: &str) -> (r: String)
    ensures
        r@ == js_escaped(s@),
{
    let v = chars_of(s);
    let mut out = String::new();
    let mut i: usize = 0;
    while i < v.len()
        invariant
            i <= v.len(),
            out@ == js_escaped(v@.subrange(0, i as int)),
        decreases v.len() - i,
    {
        let c = v[i];
        if c == '\\' || c == '"' || c == '\'' || c == '\n' || c == '\r' || c == '\0' || c == '<'
            || c == '>' || c == '&' || c == '/' || c == '\u{2028}' || c == '\u{2029}' {
            push_str(&mut out, js_escape_piece(c));
        } else {
            push_char(&mut out, c);
        }
        assert(v@.subrange(0, i + 1).drop_last() =~= v@.subrange(0, i as int));
        i = i + 1;
    }
    assert(v@.subrange(0, v@.len() as int) =~= v@);
    out
}

/// A JavaScript-escaped string holds no `<`, `>`, line break or NUL, so it
/// cannot close the surrounding `<script>` or break the literal's line.
pub proof fn lemma_js_escaped_is_inert(s: Seq<char>)
    ensures
        forall|i: int|
            0 <= i < js_escaped(s).len() ==> {
                let c = #[trigger] js_escaped(s)[i];
                c != '<' && c != '>' && c != '\n' && c != '\r' && c != '\0'
            },
    decreases s.len(),
{
    reveal_strlit("\\\\");
    reveal_strlit("\\\"");
    reveal_strlit("\\'");
    reveal_strlit("\\n");
    reveal_strlit("\\r");
    reveal_strlit("\\0");
    reveal_strlit("\\x3c");
    reveal_strlit("\\x3e");
    reveal_strlit("\\x26");
    reveal_strlit("\\/");
    reveal_strlit("\\u2028");
    reveal_strlit("\\u2029");
    if s.len() > 0 {
        lemma_js_escaped_is_inert(s.drop_last());
        let a = js_escaped(s.drop_last());
        let b = js_escape_char(s.last());
        assert forall|i: int| 0 <= i < js_escaped(s).len() implies {
            let c = #[trigger] js_escaped(s)[i];
            c != '<' && c != '>' && c != '\n' && c != '\r' && c != '\0'
        } by {
            if i < a.len() {
                assert(js_escaped(s)[i] == a[i]);
            } else {
                assert(js_escaped(s)[i] == b[i - a.len()]);
            }
        }
    }
}

// ── URL query values ──

/// A byte left as it is by percent-encoding (RFC 3986 unreserved).
pub open spec fn is_unreserved(b: u8) -> bool {
    (65 <= b && b <= 90) || (97 <= b && b <= 122) || (48 <= b && b <= 57) || b == 45 || b == 95
        || b == 46 || b == 126
}

/// The uppercase hex digit for `d < 16`.
pub open spec fn upper_hex_digit(d: u8) -> char {
    if d < 10 {
        ((d + 48) as u32) as char
    } else {
        ((d + 55) as u32) as char
    }
}

/// The encoding of one byte: itself if unreserved, else `%XX`.
pub open spec fn percent_byte(b: u8) -> Seq<char> {
    if is_unreserved(b) {
        seq![(b as u32) as char]
    } else {
        seq!['%', upper_hex_digit(b / 16), upper_hex_digit(b % 16)]
    }
}

/// Percent-encoding of a byte string.
pub open spec fn percent_encoded(b: Seq<u8>) -> Seq<char>
    decreases b.len(),
{
    if b.len() == 0 {
        Seq::empty()
    } else {
        percent_encoded(b.drop_last()) + percent_byte(b.last())
    }
}

fn upper_hex(d: u8) -> (c: char)
    requires
        d < 16,
    ensures
        c == upper_hex_digit(d),
{
    if d < 10 {
        char_from_ascii((d + 48) as u32)
    } else {
        char_from_ascii((d + 55) as u32)
    }
}

/// Percent-encode the UTF-8 bytes of `s`, keeping only unreserved bytes.
pub fn urlencoding(s: &str) -> (r: String)
    ensures
        r@ == percent_encoded(vstd::utf8::encode_utf8(s@)),
{
    let bytes = s.as_bytes();
    let mut out = String::new();
    let mut i: usize = 0;
    while i < bytes.len()
        invariant
            i <= bytes@.len(),
            out@ == percent_encoded(bytes@.subrange(0, i as int)),
        decreases bytes@.len() - i,
    {
        let b = bytes[i];
        if (65 <= b && b <= 90) || (97 <= b && b <= 122) || (48 <= b && b <= 57) || b == 45 || b
            == 95 || b == 46 || b == 126 {
            push_char(&mut out, char_from_ascii(b as u32));
        } else {
            push_char(&mut out, '%');
            push_char(&mut out, upper_hex(b / 16));
            push_char(&mut out, upper_hex(b % 16));
        }
        assert(bytes@.subrange(0, i + 1).drop_last() =~= bytes@.subrange(0, i as int));
        assert(out@ =~= percent_encoded(bytes@.subrange(0, i + 1)));
        i = i + 1;
    }
    assert(bytes@.subrange(0, bytes@.len() as int) =~= bytes@);
    out
}

} // verus!
