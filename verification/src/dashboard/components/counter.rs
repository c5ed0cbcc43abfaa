//! The saved counter, with a form that increments it without JavaScript.
use vstd::prelude::*;

use crate::dashboard::markup::push_integer;
use crate::text::signed_decimal;

verus! {

/// The saved-counter section, showing `value`.
pub open spec fn counter_markup(value: int) -> Seq<char> {
    "<section aria-labelledby=\"counter-heading\"><h2 id=\"counter-heading\">Saved counter</h2><output id=\"counter-value\" aria-labelledby=\"counter-heading\" aria-live=\"polite\">"@
        + signed_decimal(value as int)
        + "</output><form method=\"post\" action=\"/increment\"><button type=\"submit\">Increment counter</button></form><p id=\"counter-status\" role=\"status\">Each click saves one increment.</p></section>"@
}

/// Appends the saved-counter section.
pub(crate) fn push_counter(buf: &mut String, value: i64)
    ensures
        final(buf)@ == old(buf)@ + counter_markup(value as int),
{
    let ghost start = buf@;
    buf.append("<section aria-labelledby=\"counter-heading\"><h2 id=\"counter-heading\">Saved counter</h2><output id=\"counter-value\" aria-labelledby=\"counter-heading\" aria-live=\"polite\">");
    push_integer(buf, value);
    buf.append("</output><form method=\"post\" action=\"/increment\"><button type=\"submit\">Increment counter</button></form><p id=\"counter-status\" role=\"status\">Each click saves one increment.</p></section>");
    assert(buf@ =~= start + counter_markup(value as int));
}

/// The saved-counter section as HTML.
pub fn render(value: i64) -> (res: String)
    ensures
        res@ == counter_markup(value as int),
{
    let mut buf = String::new();
    push_counter(&mut buf, value);
    assert(buf@ =~= counter_markup(value as int));
    buf
}

} // verus!
