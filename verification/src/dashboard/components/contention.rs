//! The contention lab's section: why writes go through one writer, and the
//! places where the browser shows a comparison run.
use vstd::prelude::*;

use crate::dashboard::markup::{html_escape, push_text};

verus! {

/// One path of the lab comparison: its heading, its description, and
/// empty places for its results, all identified by `path`.
pub open spec fn card_markup(path: Seq<char>, title: Seq<char>, description: Seq<char>) -> Seq<char> {
    "<article class=\"path-card\" data-path=\""@
        + html_escape(path)
        + "\" aria-labelledby=\""@
        + html_escape(path + "-heading"@)
        + "\"><h3 id=\""@
        + html_escape(path + "-heading"@)
        + "\">"@
        + html_escape(title)
        + "</h3><p class=\"path-description\">"@
        + html_escape(description)
        + "</p><dl class=\"path-stats\"><div><dt>Committed</dt><dd id=\""@
        + html_escape(path + "-committed"@)
        + "\"></dd></div><div><dt>SQLITE_BUSY</dt><dd id=\""@
        + html_escape(path + "-busy"@)
        + "\"></dd></div><div><dt>Final counter</dt><dd id=\""@
        + html_escape(path + "-value"@)
        + "\"></dd></div></dl><p class=\"path-duration\" id=\""@
        + html_escape(path + "-duration"@)
        + "\"></p><ol class=\"request-timings\" id=\""@
        + html_escape(path + "-requests"@)
        + "\" aria-label=\""@
        + html_escape(title + ": each request's result and elapsed time"@)
        + "\"></ol></article>"@
}

/// Appends one path of the lab comparison.
fn push_card(buf: &mut String, path: &str, title: &str, description: &str)
    ensures
        final(buf)@ == old(buf)@ + card_markup(path@, title@, description@),
{
    let ghost start = buf@;
    buf.append("<article class=\"path-card\" data-path=\"");
    push_text(buf, path);
    buf.append("\" aria-labelledby=\"");
    let id = String::from_str(path).concat("-heading");
    push_text(buf, id.as_str());
    buf.append("\"><h3 id=\"");
    let id = String::from_str(path).concat("-heading");
    push_text(buf, id.as_str());
    buf.append("\">");
    push_text(buf, title);
    buf.append("</h3><p class=\"path-description\">");
    push_text(buf, description);
    buf.append("</p><dl class=\"path-stats\"><div><dt>Committed</dt><dd id=\"");
    let id = String::from_str(path).concat("-committed");
    push_text(buf, id.as_str());
    buf.append("\"></dd></div><div><dt>SQLITE_BUSY</dt><dd id=\"");
    let id = String::from_str(path).concat("-busy");
    push_text(buf, id.as_str());
    buf.append("\"></dd></div><div><dt>Final counter</dt><dd id=\"");
    let id = String::from_str(path).concat("-value");
    push_text(buf, id.as_str());
    buf.append("\"></dd></div></dl><p class=\"path-duration\" id=\"");
    let id = String::from_str(path).concat("-duration");
    push_text(buf, id.as_str());
    buf.append("\"></p><ol class=\"request-timings\" id=\"");
    let id = String::from_str(path).concat("-requests");
    push_text(buf, id.as_str());
    buf.append("\" aria-label=\"");
    let label = String::from_str(title).concat(": each request's result and elapsed time");
    push_text(buf, label.as_str());
    buf.append("\"></ol></article>");
    assert(buf@ =~= start + card_markup(path@, title@, description@));
}

/// The contention-lab section: the explanation, the run button, and the
/// places for the results of both paths.
pub open spec fn contention_markup() -> Seq<char> {
    "<section id=\"contention-lab\" aria-labelledby=\"contention-heading\"><h2 id=\"contention-heading\">Why put writes through a channel?</h2><p>SQLite allows one writer at a time, even in WAL mode. Start 12 write calls together and compare independent connections with a single writer behind a channel.</p><div class=\"lab-settings\"><span>12 simultaneous calls per path</span><span>75 ms transaction hold</span><span>0 ms busy timeout</span></div><button id=\"run-contention\" type=\"button\" disabled aria-describedby=\"contention-status\">Run 12 concurrent writes</button><p id=\"contention-status\" role=\"status\">Enable JavaScript to run the comparison.</p><div id=\"contention-results\" hidden><div class=\"path-comparison\">"@
        + card_markup("direct"@, "Independent writers"@, "12 calls → 12 SQLite connections"@)
        + card_markup("queued"@, "Channel + one writer"@, "12 calls → channel → 1 SQLite connection"@)
        + "</div><p class=\"timing-note\" id=\"timing-note\"></p><p class=\"lab-takeaway\" id=\"contention-takeaway\"></p></div><details class=\"lab-explanation\"><summary>What this comparison shows</summary><p>One HTTP request starts concurrent tasks on the server for each path. Each run uses two fresh, temporary WAL databases starting at zero, so your saved counter is unchanged.</p><p>The lab holds each write transaction for 75 ms and sets the busy timeout to zero on both paths so lock contention is easy to see. Independent writers can return SQLITE_BUSY while another holds the write lock. The channel lets calls wait for one writer to commit them in turn. Request times include that wait.</p><p>SQLite busy waits or retries are other ways to handle competing writers. A channel coordinates writes in this process; it cannot prevent contention from another process. This demonstrates coordination, not a speed benchmark. The saved counter uses a 5-second busy timeout and no artificial delay.</p></details></section>"@
}

/// Appends the contention-lab section.
pub(crate) fn push_contention(buf: &mut String)
    ensures
        final(buf)@ == old(buf)@ + contention_markup(),
{
    let ghost start = buf@;
    buf.append("<section id=\"contention-lab\" aria-labelledby=\"contention-heading\"><h2 id=\"contention-heading\">Why put writes through a channel?</h2><p>SQLite allows one writer at a time, even in WAL mode. Start 12 write calls together and compare independent connections with a single writer behind a channel.</p><div class=\"lab-settings\"><span>12 simultaneous calls per path</span><span>75 ms transaction hold</span><span>0 ms busy timeout</span></div><button id=\"run-contention\" type=\"button\" disabled aria-describedby=\"contention-status\">Run 12 concurrent writes</button><p id=\"contention-status\" role=\"status\">Enable JavaScript to run the comparison.</p><div id=\"contention-results\" hidden><div class=\"path-comparison\">");
    push_card(buf, "direct", "Independent writers", "12 calls → 12 SQLite connections");
    push_card(buf, "queued", "Channel + one writer", "12 calls → channel → 1 SQLite connection");
    buf.append("</div><p class=\"timing-note\" id=\"timing-note\"></p><p class=\"lab-takeaway\" id=\"contention-takeaway\"></p></div><details class=\"lab-explanation\"><summary>What this comparison shows</summary><p>One HTTP request starts concurrent tasks on the server for each path. Each run uses two fresh, temporary WAL databases starting at zero, so your saved counter is unchanged.</p><p>The lab holds each write transaction for 75 ms and sets the busy timeout to zero on both paths so lock contention is easy to see. Independent writers can return SQLITE_BUSY while another holds the write lock. The channel lets calls wait for one writer to commit them in turn. Request times include that wait.</p><p>SQLite busy waits or retries are other ways to handle competing writers. A channel coordinates writes in this process; it cannot prevent contention from another process. This demonstrates coordination, not a speed benchmark. The saved counter uses a 5-second busy timeout and no artificial delay.</p></details></section>");
    assert(buf@ =~= start + contention_markup());
}

/// The contention-lab section as HTML.
pub fn render() -> (res: String)
    ensures
        res@ == contention_markup(),
{
    let mut buf = String::new();
    push_contention(&mut buf);
    assert(buf@ =~= contention_markup());
    buf
}

} // verus!
