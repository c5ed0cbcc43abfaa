//! The dashboard page.
use vstd::prelude::*;

use crate::dashboard::components::contention::{contention_markup, push_contention};
use crate::dashboard::components::counter::{counter_markup, push_counter};
use crate::dashboard::components::inventory::{inventory_markup, push_inventory};
use crate::dashboard::layouts::{base, base_markup};
use crate::dashboard::components::inventory::{inventory_lists_every_item, row_markup};
use crate::dashboard::layouts::base_holds_content;
use crate::database::InventoryItem;
use crate::text::{contains_text, lemma_contains_middle, lemma_contains_trans};

verus! {

/// The page: the saved counter, the contention lab and the inventory, in the
/// shared document.
pub open spec fn index_markup(value: int, items: Seq<InventoryItem>, css_url: Seq<char>, js_url: Seq<char>) -> Seq<char> {
    base_markup(counter_markup(value) + contention_markup() + inventory_markup(items), css_url, js_url)
}

/// The page as HTML, for the counter's `value` and the inventory `items`.
pub fn index(value: i64, items: &[InventoryItem], css_url: &str, js_url: &str) -> (res: String)
    ensures
        res@ == index_markup(value as int, items@, css_url@, js_url@),
        contains_text(res@, counter_markup(value as int)),
        contains_text(res@, contention_markup()),
        contains_text(res@, inventory_markup(items@)),
{
    proof {
        page_shows_every_section(value as int, items@, css_url@, js_url@);
    }
    let mut content = String::new();
    push_counter(&mut content, value);
    push_contention(&mut content);
    push_inventory(&mut content, items);
    assert(content@ =~= counter_markup(value as int) + contention_markup() + inventory_markup(items@));
    base(content.as_str(), css_url, js_url)
}

/// The page's `Cache-Control`: revalidate, so that a deployment's new asset
/// URLs are picked up.
pub fn page_cache_control() -> (res: &'static str)
    ensures
        res@ == "no-cache"@,
{
    "no-cache"
}

/// The page shows every section and every item: the counter section for
/// `value`, the contention lab and the inventory section occur in it, one
/// after the other in that order, and so does each item's row.
pub proof fn page_shows_every_section(value: int, items: Seq<InventoryItem>, css_url: Seq<char>, js_url: Seq<char>)
    ensures
        contains_text(
            index_markup(value, items, css_url, js_url),
            counter_markup(value) + contention_markup() + inventory_markup(items),
        ),
        contains_text(index_markup(value, items, css_url, js_url), counter_markup(value)),
        contains_text(index_markup(value, items, css_url, js_url), contention_markup()),
        contains_text(index_markup(value, items, css_url, js_url), inventory_markup(items)),
        forall|k: int|
            0 <= k < items.len() ==> contains_text(
                index_markup(value, items, css_url, js_url),
                #[trigger] row_markup(items[k]),
            ),
{
    let counter = counter_markup(value);
    let lab = contention_markup();
    let inventory = inventory_markup(items);
    let content = counter + lab + inventory;
    let page = index_markup(value, items, css_url, js_url);
    base_holds_content(content, css_url, js_url);
    lemma_contains_middle(Seq::<char>::empty(), counter, lab + inventory);
    assert(Seq::<char>::empty() + counter + (lab + inventory) =~= content);
    lemma_contains_trans(page, content, counter);
    lemma_contains_middle(counter, lab, inventory);
    lemma_contains_trans(page, content, lab);
    lemma_contains_middle(counter + lab, inventory, Seq::<char>::empty());
    assert(counter + lab + inventory + Seq::<char>::empty() =~= content);
    lemma_contains_trans(page, content, inventory);
    assert forall|k: int| 0 <= k < items.len() implies contains_text(page, #[trigger] row_markup(items[k])) by {
        inventory_lists_every_item(items, k);
        lemma_contains_trans(page, inventory, row_markup(items[k]));
    }
}

} // verus!
