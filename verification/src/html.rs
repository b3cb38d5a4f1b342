//! Text made safe for a message in the platform's HTML style.

use vstd::prelude::*;

verus! {

/// What stands for one character in HTML: `&`, `<` and `>` are written as
/// entities, every other character as itself.
pub open spec fn escaped_char(c: char) -> Seq<char> {
    if c == '&' {
        "&amp;"@
    } else if c == '<' {
        "&lt;"@
    } else if c == '>' {
        "&gt;"@
    } else {
        seq![c]
    }
}

/// `s` with each character escaped.
pub open spec fn escaped(s: Seq<char>) -> Seq<char>
    decreases s.len(),
{
    if s.len() == 0 {
        Seq::empty()
    } else {
        escaped_char(s[0]) + escaped(s.drop_first())
    }
}

/// `s` escaped and set as inline code.
pub open spec fn inline_code(s: Seq<char>) -> Seq<char> {
    "<code>"@ + escaped(s) + "</code>"@
}

/// Calls `teloxide::utils::html::escape`. Trusted: it replaces `&`, then `<`,
/// then `>` by their entities and leaves every other character alone, which
/// comes to escaping character by character.
#[verifier::external_body]
pub(crate) fn escape(s: &str) -> (r: String)
    ensures
        r@ == escaped(s@),
{
    teloxide::utils::html::escape(s)
}

/// Calls `teloxide::utils::html::code_inline`. Trusted: it escapes the text
/// and puts it between `<code>` and `</code>`.
#[verifier::external_body]
pub(crate) fn code_inline(s: &str) -> (r: String)
    ensures
        r@ == inline_code(s@),
{
    teloxide::utils::html::code_inline(s)
}

} // verus!
