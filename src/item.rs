//! One entry of the list, as the listing endpoint hands it out.
use vstd::prelude::*;

verus! {

/// One row of the list table. The value is optional: a row whose text
/// could not be read is listed without one.
#[derive(Clone, Debug)]
pub struct ListItem {
    pub listitem: Option<String>,
}

/// `item` carries the value `v`.
pub open spec fn carries(item: ListItem, v: Seq<char>) -> bool {
    item.listitem matches Some(t) && t@ == v
}

/// `items` lists the rows `rows`, one item per row, in the same order.
pub open spec fn lists_rows(rows: Seq<Seq<char>>, items: Seq<ListItem>) -> bool {
    &&& items.len() == rows.len()
    &&& forall|i: int|
        0 <= i < rows.len() ==> carries(#[trigger] items[i], rows[i])
}

/// The set of values that the items carry.
pub open spec fn listed_values(items: Seq<ListItem>) -> Set<Seq<char>> {
    Set::new(
        |v: Seq<char>|
            exists|i: int| 0 <= i < items.len() && carries(#[trigger] items[i], v),
    )
}

impl ListItem {
    /// The item for a row that holds `value`.
    pub fn from_row(value: String) -> (r: ListItem)
        ensures
            r.listitem == Some(value),
    {
        ListItem { listitem: Some(value) }
    }

    /// The item's value, if it has one.
    pub fn value(&self) -> (r: Option<&String>)
        ensures
            r matches Some(v) ==> self.listitem == Some(*v),
            r is None ==> self.listitem is None,
    {
        match &self.listitem {
            Some(v) => Some(v),
            None => None,
        }
    }
}

/// One item per row, each carrying its row's text, in the rows' order.
pub fn items_from_rows(rows: &Vec<String>) -> (r: Vec<ListItem>)
    ensures
        lists_rows(rows@.map_values(|s: String| s@), r@),
{
    let ghost views = rows@.map_values(|s: String| s@);
    let mut items: Vec<ListItem> = Vec::new();
    let mut i: usize = 0;
    while i < rows.len()
        invariant
            i <= rows.len(),
            views == rows@.map_values(|s: String| s@),
            items.len() == i,
            forall|k: int|
                0 <= k < i ==> carries(#[trigger] items@[k], views[k]),
        decreases rows.len() - i,
    {
        items.push(ListItem::from_row(rows[i].clone()));
        i += 1;
    }
    items
}

} // verus!
