//! HTML text: what maud writes for text and for integers.
use vstd::prelude::*;

use crate::text::signed_decimal;

verus! {

/// How one character appears in HTML text and attribute values: `&`, `<`,
/// `>` and `"` become entities; every other character stays.
pub open spec fn escape_char(c: char) -> Seq<char> {
    if c == '&' {
        seq!['&', 'a', 'm', 'p', ';']
    } else if c == '<' {
        seq!['&', 'l', 't', ';']
    } else if c == '>' {
        seq!['&', 'g', 't', ';']
    } else if c == '"' {
        seq!['&', 'q', 'u', 'o', 't', ';']
    } else {
        seq![c]
    }
}

/// A string escaped for HTML.
pub open spec fn html_escape(s: Seq<char>) -> Seq<char>
    decreases s.len(),
{
    if s.len() == 0 {
        Seq::empty()
    } else {
        html_escape(s.drop_last()) + escape_char(s.last())
    }
}

/// Appends `s` escaped, through `maud::Render::render_to` on a `str`, which
/// replaces `&`, `<`, `>` and `"` by `&amp;`, `&lt;`, `&gt;` and `&quot;` and
/// copies every other character.
#[verifier::external_body]
pub(crate) fn push_text(buf: &mut String, s: &str)
    ensures
        final(buf)@ == old(buf)@ + html_escape(s@),
{
    maud::Render::render_to(s, buf)
}

/// Appends `v`, through `maud::Render::render_to` on an `i64`, which writes
/// its decimal digits (with `itoa`), after a `-` when it is negative.
#[verifier::external_body]
pub(crate) fn push_integer(buf: &mut String, v: i64)
    ensures
        final(buf)@ == old(buf)@ + signed_decimal(v as int),
{
    maud::Render::render_to(&v, buf)
}

} // verus!
