//! Branded HTML chrome shared by every transactional email: the outer shell
//! and footer, the heading, the call-to-action button and the fine print.

use vstd::prelude::*;
use crate::text::concat3;

verus! {

/// The opening of the email shell, up to the body.
pub open spec fn shell_open() -> Seq<char> {
    "<div style=\"font-family: system-ui, sans-serif; max-width: 480px; margin: 0 auto; padding: 40px 20px;\">\n                "@
}

/// The end of the email shell after the body, with the brand footer.
pub open spec fn shell_close() -> Seq<char> {
    "\n                <hr style=\"border: none; border-top: 1px solid #e4e4e7; margin: 32px 0;\" />\n                <p style=\"color: #a1a1aa; font-size: 12px;\">Rift \u{2014} Deep links for humans and agents</p>\n            </div>"@
}

/// Wrap inner `body` HTML in Rift's standard email shell and footer.
pub fn branded_html(body: &str) -> (r: String)
    ensures
        r@ == shell_open() + body@ + shell_close(),
{
    concat3(
        "<div style=\"font-family: system-ui, sans-serif; max-width: 480px; margin: 0 auto; padding: 40px 20px;\">\n                ",
        body,
        "\n                <hr style=\"border: none; border-top: 1px solid #e4e4e7; margin: 32px 0;\" />\n                <p style=\"color: #a1a1aa; font-size: 12px;\">Rift \u{2014} Deep links for humans and agents</p>\n            </div>",
    )
}

/// The standard email heading (the `<h2>` at the top of the body).
pub fn heading(text: &str) -> (r: String)
    ensures
        r@ == "<h2 style=\"margin-bottom: 24px;\">"@ + text@ + "</h2>"@,
{
    concat3("<h2 style=\"margin-bottom: 24px;\">", text, "</h2>")
}

/// The primary call-to-action button: a teal link to `href` reading `label`.
pub fn cta_button(label: &str, href: &str) -> (r: String)
    ensures
        r@ == "<a href=\""@ + href@
            + "\" style=\"display: inline-block; padding: 12px 24px; background: #0d9488; color: white; text-decoration: none; border-radius: 6px; margin: 20px 0;\">"@
            + label@ + "</a>"@,
{
    let head = concat3(
        "<a href=\"",
        href,
        "\" style=\"display: inline-block; padding: 12px 24px; background: #0d9488; color: white; text-decoration: none; border-radius: 6px; margin: 20px 0;\">",
    );
    concat3(head.as_str(), label, "</a>")
}

/// A muted fine-print line (expiry notice, safe-to-ignore copy).
pub fn fine_print(text: &str) -> (r: String)
    ensures
        r@ == "<p style=\"color: #71717a; font-size: 13px; margin-top: 24px;\">"@ + text@
            + "</p>"@,
{
    concat3("<p style=\"color: #71717a; font-size: 13px; margin-top: 24px;\">", text, "</p>")
}

} // verus!
