use rift::escape::{html_escape, js_escape, urlencoding};

#[test]
fn html_escape_replaces_markup_characters() {
    assert_eq!(
        html_escape(r#"<a href="x">Tom & Jerry's</a>"#),
        "&lt;a href=&quot;x&quot;&gt;Tom &amp; Jerry&#x27;s&lt;/a&gt;"
    );
    assert_eq!(html_escape("plain"), "plain");
    let out = html_escape("<>\"'&<>\"'");
    assert!(!out.contains('<') && !out.contains('>') && !out.contains('"') && !out.contains('\''));
}

#[test]
fn js_escape_keeps_scripts_closed() {
    assert_eq!(js_escape("</script>"), "\\x3c\\/script\\x3e");
    assert_eq!(js_escape("a\"b'c\\d\ne\r\0&"), "a\\\"b\\'c\\\\d\\ne\\r\\0\\x26");
    assert_eq!(js_escape("\u{2028}\u{2029}"), "\\u2028\\u2029");
    assert_eq!(js_escape("héllo"), "héllo");
}

#[test]
fn urlencoding_keeps_unreserved_bytes() {
    assert_eq!(urlencoding("AZaz09-_.~"), "AZaz09-_.~");
    assert_eq!(urlencoding("rift_link=a b"), "rift_link%3Da%20b");
    assert_eq!(urlencoding("é"), "%C3%A9");
}
