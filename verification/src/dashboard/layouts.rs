//! The HTML document shared by the pages.
use vstd::prelude::*;

use crate::dashboard::markup::{html_escape, push_text};
use crate::text::{contains_text, lemma_contains_middle};

verus! {

/// The HTML document around `content`, which loads the stylesheet and the
/// script from the given URLs.
pub open spec fn base_markup(content: Seq<char>, css_url: Seq<char>, js_url: Seq<char>) -> Seq<char> {
    "<!DOCTYPE html><html lang=\"en\"><head><meta charset=\"utf-8\"><meta name=\"viewport\" content=\"width=device-width, initial-scale=1\"><title>SQLite Web Starter</title><link rel=\"stylesheet\" href=\""@
        + html_escape(css_url)
        + "\"><script src=\""@
        + html_escape(js_url)
        + "\" defer></script></head><body><main><h1>SQLite Web Starter</h1><p>A small server-rendered page with data saved in SQLite.</p>"@
        + content
        + "<footer>The counter also works with JavaScript disabled.</footer></main></body></html>"@
}

/// Appends the HTML document around `content`.
pub(crate) fn push_base(buf: &mut String, content: &str, css_url: &str, js_url: &str)
    ensures
        final(buf)@ == old(buf)@ + base_markup(content@, css_url@, js_url@),
{
    let ghost start = buf@;
    buf.append("<!DOCTYPE html><html lang=\"en\"><head><meta charset=\"utf-8\"><meta name=\"viewport\" content=\"width=device-width, initial-scale=1\"><title>SQLite Web Starter</title><link rel=\"stylesheet\" href=\"");
    push_text(buf, css_url);
    buf.append("\"><script src=\"");
    push_text(buf, js_url);
    buf.append("\" defer></script></head><body><main><h1>SQLite Web Starter</h1><p>A small server-rendered page with data saved in SQLite.</p>");
    buf.append(content);
    buf.append("<footer>The counter also works with JavaScript disabled.</footer></main></body></html>");
    assert(buf@ =~= start + base_markup(content@, css_url@, js_url@));
}

/// The HTML document around `content`.
pub fn base(content: &str, css_url: &str, js_url: &str) -> (res: String)
    ensures
        res@ == base_markup(content@, css_url@, js_url@),
{
    let mut buf = String::new();
    push_base(&mut buf, content, css_url, js_url);
    assert(buf@ =~= base_markup(content@, css_url@, js_url@));
    buf
}

/// The document shows its content: the content occurs in it whole.
pub proof fn base_holds_content(content: Seq<char>, css_url: Seq<char>, js_url: Seq<char>)
    ensures
        contains_text(base_markup(content, css_url, js_url), content),
{
    let head = "<!DOCTYPE html><html lang=\"en\"><head><meta charset=\"utf-8\"><meta name=\"viewport\" content=\"width=device-width, initial-scale=1\"><title>SQLite Web Starter</title><link rel=\"stylesheet\" href=\""@
        + html_escape(css_url)
        + "\"><script src=\""@
        + html_escape(js_url)
        + "\" defer></script></head><body><main><h1>SQLite Web Starter</h1><p>A small server-rendered page with data saved in SQLite.</p>"@;
    let foot = "<footer>The counter also works with JavaScript disabled.</footer></main></body></html>"@;
    assert(base_markup(content, css_url, js_url) =~= head + content + foot);
    lemma_contains_middle(head, content, foot);
}

} // verus!
