use sqlite_web_starter::dashboard::assets::{bundle_url, headers, url, Asset};
use sqlite_web_starter::dashboard::components::{contention, counter, inventory};
use sqlite_web_starter::dashboard::layouts::base;
use sqlite_web_starter::dashboard::pages::{index, page_cache_control};
use sqlite_web_starter::database::InventoryItem;


fn items() -> Vec<InventoryItem> {
    vec![
        InventoryItem { name: "Notebooks".to_string(), quantity: 12 },
        InventoryItem { name: "Pens & <pencils>".to_string(), quantity: -3 },
    ]
}

fn attribute<'a>(page: &'a str, tag: &str, name: &str) -> &'a str {
    let element = page.split_once(tag).unwrap().1.split_once('>').unwrap().0;
    element.split_once(&format!("{name}=\"")).unwrap().1.split_once('"').unwrap().0
}

#[test]
fn page_shows_the_saved_counter() {
    let page = index(1, &items(), "/assets/site.a.css", "/assets/site.a.js");
    let counter = page
        .split_once("id=\"counter-value\"")
        .expect("page contains the counter output")
        .1
        .split_once('>')
        .unwrap()
        .1
        .split_once("</output>")
        .unwrap()
        .0;
    assert_eq!(counter, "1");
}

#[test]
fn page_references_hashed_bundles() {
    let css = bundle_url(Asset::Stylesheet, b"body{margin:0}");
    let js = bundle_url(Asset::Script, b"(()=>{})();");
    let page = index(0, &items(), &css, &js);
    assert!(page.starts_with("<!DOCTYPE html><html lang=\"en\"><head>"));
    assert_eq!(page_cache_control(), "no-cache");
    let stylesheet = attribute(&page, "<link", "href");
    let javascript = attribute(&page, "<script", "src");
    for (url, extension, asset, content_type) in [
        (stylesheet, ".css", Asset::Stylesheet, "text/css; charset=utf-8"),
        (javascript, ".js", Asset::Script, "text/javascript; charset=utf-8"),
    ] {
        assert!(url.starts_with("/assets/site."), "{url}");
        assert!(url.ends_with(extension), "{url}");
        let headers = headers(asset);
        assert_eq!(headers.content_type, content_type);
        assert_eq!(headers.cache_control, "public, max-age=31536000, immutable");
    }
}

#[test]
fn asset_urls_and_headers() {
    for (asset, expected_type) in [(Asset::Stylesheet, "text/css; charset=utf-8"), (Asset::Script, "text/javascript; charset=utf-8")] {
        let h = headers(asset);
        assert_eq!(h.content_type, expected_type);
        assert_eq!(h.cache_control, "public, max-age=31536000, immutable");
        assert_eq!(h.content_type_options, "nosniff");
    }
    assert_eq!(url(Asset::Stylesheet, &[0xab, 0x12, 0x0f]), "/assets/site.ab120f.css");
    assert_eq!(url(Asset::Script, &[]), "/assets/site..js");
    assert_eq!(
        bundle_url(Asset::Stylesheet, b""),
        "/assets/site.e3b0c44298fc1c149afbf4c8996fb92427ae41e4649b934ca495991b7852b855.css"
    );
    assert_eq!(
        bundle_url(Asset::Script, b"abc"),
        "/assets/site.ba7816bf8f01cfea414140de5dae2223b00361a396177a9cb410ff61f20015ad.js"
    );
}

#[test]
fn the_counter_section_shows_the_value_and_a_form() {
    assert_eq!(
        counter::render(-42),
        "<section aria-labelledby=\"counter-heading\"><h2 id=\"counter-heading\">Saved counter</h2><output id=\"counter-value\" aria-labelledby=\"counter-heading\" aria-live=\"polite\">-42</output><form method=\"post\" action=\"/increment\"><button type=\"submit\">Increment counter</button></form><p id=\"counter-status\" role=\"status\">Each click saves one increment.</p></section>"
    );
}

#[test]
fn inventory_names_are_escaped() {
    let html = inventory::render(&items());
    assert!(html.contains("<tr><td>Notebooks</td><td>12</td></tr>"), "{html}");
    assert!(html.contains("<tr><td>Pens &amp; &lt;pencils&gt;</td><td>-3</td></tr>"), "{html}");
    assert!(html.starts_with("<section aria-labelledby=\"inventory-heading\">"));
    assert!(html.ends_with("</tbody></table></section>"));
    assert!(inventory::render(&[]).contains("<tbody></tbody>"));
}

#[test]
fn the_contention_section_has_a_card_per_path() {
    let html = contention::render();
    for id in ["direct-heading", "direct-committed", "direct-busy", "direct-value", "queued-requests", "queued-duration"] {
        assert!(html.contains(&format!("id=\"{id}\"")), "{id}");
    }
    assert!(html.contains("<h3 id=\"queued-heading\">Channel + one writer</h3>"));
    assert!(html.contains("aria-label=\"Independent writers: each request's result and elapsed time\""));
    assert!(html.contains("<button id=\"run-contention\" type=\"button\" disabled aria-describedby=\"contention-status\">"));
}

#[test]
fn the_layout_escapes_urls_and_keeps_content() {
    let html = base("<p>x</p>", "/a\"b.css", "/c.js");
    assert!(html.contains("<link rel=\"stylesheet\" href=\"/a&quot;b.css\">"));
    assert!(html.contains("<script src=\"/c.js\" defer></script>"));
    assert!(html.contains("<p>x</p><footer>"));
}
