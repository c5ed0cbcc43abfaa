//! The sample inventory as a table.
use vstd::prelude::*;

use crate::dashboard::markup::{html_escape, push_integer, push_text};
use crate::database::InventoryItem;
use crate::text::{contains_text, lemma_contains_middle, lemma_contains_trans, signed_decimal};

verus! {

/// One inventory row: the item's name and its quantity.
pub open spec fn row_markup(item: InventoryItem) -> Seq<char> {
    "<tr><td>"@
        + html_escape(item.name@)
        + "</td><td>"@
        + signed_decimal(item.quantity as int)
        + "</td></tr>"@
}

/// Appends one inventory row.
fn push_row(buf: &mut String, item: &InventoryItem)
    ensures
        final(buf)@ == old(buf)@ + row_markup(*item),
{
    let ghost start = buf@;
    buf.append("<tr><td>");
    push_text(buf, item.name.as_str());
    buf.append("</td><td>");
    push_integer(buf, item.quantity);
    buf.append("</td></tr>");
    assert(buf@ =~= start + row_markup(*item));
}

/// The rows of a table of `items`, in order.
pub open spec fn rows_markup(items: Seq<InventoryItem>) -> Seq<char>
    decreases items.len(),
{
    if items.len() == 0 {
        Seq::empty()
    } else {
        rows_markup(items.drop_last()) + row_markup(items.last())
    }
}

/// The inventory section: a table with one row per item.
pub open spec fn inventory_markup(items: Seq<InventoryItem>) -> Seq<char> {
    "<section aria-labelledby=\"inventory-heading\"><h2 id=\"inventory-heading\">Sample inventory</h2><table id=\"sample-data\"><caption>These sample records are read from SQLite.</caption><thead><tr><th scope=\"col\">Item</th><th scope=\"col\">Quantity</th></tr></thead><tbody>"@ + rows_markup(items) + "</tbody></table></section>"@
}

/// Appends the inventory section.
pub(crate) fn push_inventory(buf: &mut String, items: &[InventoryItem])
    ensures
        final(buf)@ == old(buf)@ + inventory_markup(items@),
{
    let ghost start = buf@;
    buf.append("<section aria-labelledby=\"inventory-heading\"><h2 id=\"inventory-heading\">Sample inventory</h2><table id=\"sample-data\"><caption>These sample records are read from SQLite.</caption><thead><tr><th scope=\"col\">Item</th><th scope=\"col\">Quantity</th></tr></thead><tbody>");
    let mut i: usize = 0;
    while i < items.len()
        invariant
            i <= items@.len(),
            buf@ == start + "<section aria-labelledby=\"inventory-heading\"><h2 id=\"inventory-heading\">Sample inventory</h2><table id=\"sample-data\"><caption>These sample records are read from SQLite.</caption><thead><tr><th scope=\"col\">Item</th><th scope=\"col\">Quantity</th></tr></thead><tbody>"@ + rows_markup(items@.take(i as int)),
        decreases items@.len() - i,
    {
        assert(items@.take(i + 1).drop_last() =~= items@.take(i as int));
        push_row(buf, &items[i]);
        assert(buf@ =~= start + "<section aria-labelledby=\"inventory-heading\"><h2 id=\"inventory-heading\">Sample inventory</h2><table id=\"sample-data\"><caption>These sample records are read from SQLite.</caption><thead><tr><th scope=\"col\">Item</th><th scope=\"col\">Quantity</th></tr></thead><tbody>"@ + rows_markup(items@.take(i + 1)));
        i = i + 1;
    }
    assert(items@.take(items@.len() as int) =~= items@);
    buf.append("</tbody></table></section>");
    assert(buf@ =~= start + inventory_markup(items@));
}

/// The inventory section as HTML.
pub fn render(items: &[InventoryItem]) -> (res: String)
    ensures
        res@ == inventory_markup(items@),
{
    let mut buf = String::new();
    push_inventory(&mut buf, items);
    assert(buf@ =~= inventory_markup(items@));
    buf
}

proof fn lemma_rows_list_every_item(items: Seq<InventoryItem>, k: int)
    requires
        0 <= k < items.len(),
    ensures
        contains_text(rows_markup(items), row_markup(items[k])),
    decreases items.len(),
{
    let before = rows_markup(items.drop_last());
    let last = row_markup(items.last());
    assert(rows_markup(items) == before + last);
    if k == items.len() - 1 {
        lemma_contains_middle(before, last, Seq::<char>::empty());
        assert(before + last + Seq::<char>::empty() =~= before + last);
    } else {
        lemma_rows_list_every_item(items.drop_last(), k);
        assert(items.drop_last()[k] == items[k]);
        lemma_contains_middle(Seq::<char>::empty(), before, last);
        assert(Seq::<char>::empty() + before + last =~= before + last);
        lemma_contains_trans(rows_markup(items), before, row_markup(items[k]));
    }
}

/// The inventory section lists every item: each item's row (its escaped
/// name and its quantity) occurs in it.
pub proof fn inventory_lists_every_item(items: Seq<InventoryItem>, k: int)
    requires
        0 <= k < items.len(),
    ensures
        contains_text(inventory_markup(items), row_markup(items[k])),
        contains_text(row_markup(items[k]), html_escape(items[k].name@)),
        contains_text(row_markup(items[k]), signed_decimal(items[k].quantity as int)),
{
    let head = "<section aria-labelledby=\"inventory-heading\"><h2 id=\"inventory-heading\">Sample inventory</h2><table id=\"sample-data\"><caption>These sample records are read from SQLite.</caption><thead><tr><th scope=\"col\">Item</th><th scope=\"col\">Quantity</th></tr></thead><tbody>"@;
    let foot = "</tbody></table></section>"@;
    lemma_rows_list_every_item(items, k);
    lemma_contains_middle(head, rows_markup(items), foot);
    lemma_contains_trans(inventory_markup(items), rows_markup(items), row_markup(items[k]));
    let item = items[k];
    lemma_contains_middle("<tr><td>"@, html_escape(item.name@), "</td><td>"@ + signed_decimal(item.quantity as int) + "</td></tr>"@);
    assert(row_markup(item) =~= "<tr><td>"@ + html_escape(item.name@) + ("</td><td>"@ + signed_decimal(item.quantity as int) + "</td></tr>"@));
    lemma_contains_middle("<tr><td>"@ + html_escape(item.name@) + "</td><td>"@, signed_decimal(item.quantity as int), "</td></tr>"@);
}

} // verus!
