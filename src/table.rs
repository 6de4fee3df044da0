//! The list table held in memory: the rows in insertion order, the two
//! operations the service performs on it, the submission handler over it,
//! and what holds of listings across requests.
use vstd::prelude::*;
use crate::form::form_value;
use crate::handler::{post_page, post_reply};
use crate::item::{carries, items_from_rows, listed_values, lists_rows, ListItem};
use crate::page::INDEX_HTML;

verus! {

/// A list table: one text per row, oldest first.
pub struct ListTable {
    rows: Vec<String>,
}

impl View for ListTable {
    type V = Seq<Seq<char>>;

    closed spec fn view(&self) -> Seq<Seq<char>> {
        self.rows@.map_values(|s: String| s@)
    }
}

/// The rows after a submission of `body`: one more row holding the value
/// it submits, or the same rows when it submits none.
pub open spec fn after_post(rows: Seq<Seq<char>>, body: Seq<char>) -> Seq<Seq<char>> {
    match form_value(body) {
        Some(v) => rows.push(v),
        None => rows,
    }
}

/// The values that the submissions `bodies`, in this order, store.
pub open spec fn posted_values(bodies: Seq<Seq<char>>) -> Seq<Seq<char>>
    decreases bodies.len(),
{
    if bodies.len() == 0 {
        Seq::empty()
    } else {
        after_post(posted_values(bodies.drop_last()), bodies.last())
    }
}

impl ListTable {
    /// A table with no rows.
    pub fn new() -> (r: ListTable)
        ensures
            r@ == Seq::<Seq<char>>::empty(),
    {
        let r = ListTable { rows: Vec::new() };
        assert(r@ =~= Seq::<Seq<char>>::empty());
        r
    }

    /// Adds one row holding `value`.
    pub fn insert(&mut self, value: String)
        ensures
            final(self)@ == old(self)@.push(value@),
    {
        self.rows.push(value);
        assert(final(self)@ =~= old(self)@.push(value@));
    }

    /// Every row, as list items, in the table's order.
    pub fn fetch_all(&self) -> (r: Vec<ListItem>)
        ensures
            lists_rows(self@, r@),
    {
        items_from_rows(&self.rows)
    }

    /// Handles a submission of `data`: stores the value it submits, if any,
    /// and returns the page to answer with.
    pub fn post_list(&mut self, data: String) -> (page: String)
        ensures
            page@ == post_page(data@),
            final(self)@ == after_post(old(self)@, data@),
    {
        let reply = post_reply(data);
        match reply.insert {
            Some(v) => self.insert(v),
            None => {},
        }
        reply.page
    }
}

/// A listing of a table carries exactly the set of values stored in it;
/// for an empty table, the empty set.
pub proof fn lemma_listing_holds_rows(rows: Seq<Seq<char>>, items: Seq<ListItem>)
    requires
        lists_rows(rows, items),
    ensures
        listed_values(items) == rows.to_set(),
{
    assert forall|v: Seq<char>| listed_values(items).contains(v) <==> rows.to_set().contains(v) by {
        if listed_values(items).contains(v) {
            let i = choose|i: int| 0 <= i < items.len() && carries(#[trigger] items[i], v);
            assert(carries(items[i], rows[i]));
            assert(rows[i] == v);
        }
        if rows.to_set().contains(v) {
            let i = choose|i: int| 0 <= i < rows.len() && rows[i] == v;
            assert(carries(items[i], rows[i]));
        }
    }
    assert(listed_values(items) =~= rows.to_set());
}

/// Starting from an empty table, after the submissions `bodies` one after
/// another, a listing carries exactly the values that those submissions
/// stored, and nothing else.
pub proof fn lemma_listing_after_posts(
    tables: Seq<Seq<Seq<char>>>,
    bodies: Seq<Seq<char>>,
    items: Seq<ListItem>,
)
    requires
        tables.len() == bodies.len() + 1,
        tables[0] == Seq::<Seq<char>>::empty(),
        forall|k: int|
            0 <= k < bodies.len() ==> #[trigger] tables[k + 1] == after_post(tables[k], bodies[k]),
        lists_rows(tables.last(), items),
    ensures
        listed_values(items) == posted_values(bodies).to_set(),
{
    let n = bodies.len() as int;
    assert forall|k: int| 0 <= k <= n implies tables[k] == posted_values(
        #[trigger] bodies.take(k),
    ) by {
        lemma_tables_follow_posts(tables, bodies, k);
    }
    assert(bodies.take(n) =~= bodies);
    lemma_listing_holds_rows(tables.last(), items);
}

proof fn lemma_tables_follow_posts(tables: Seq<Seq<Seq<char>>>, bodies: Seq<Seq<char>>, k: int)
    requires
        0 <= k <= bodies.len(),
        tables.len() == bodies.len() + 1,
        tables[0] == Seq::<Seq<char>>::empty(),
        forall|j: int|
            0 <= j < bodies.len() ==> #[trigger] tables[j + 1] == after_post(tables[j], bodies[j]),
    ensures
        tables[k] == posted_values(bodies.take(k)),
    decreases k,
{
    if k > 0 {
        lemma_tables_follow_posts(tables, bodies, k - 1);
        assert(bodies.take(k).drop_last() =~= bodies.take(k - 1));
        assert(tables[(k - 1) + 1] == after_post(tables[k - 1], bodies[k - 1]));
    }
}

/// Two listings of one table, with no write between them, carry the same
/// values in the same order.
pub proof fn lemma_listing_repeats(rows: Seq<Seq<char>>, a: Seq<ListItem>, b: Seq<ListItem>)
    requires
        lists_rows(rows, a),
        lists_rows(rows, b),
    ensures
        listed_values(a) == listed_values(b),
        a.len() == b.len(),
        forall|i: int, v: Seq<char>|
            0 <= i < a.len() ==> (#[trigger] carries(a[i], v) <==> carries(b[i], v)),
{
    lemma_listing_holds_rows(rows, a);
    lemma_listing_holds_rows(rows, b);
    assert forall|i: int, v: Seq<char>| 0 <= i < a.len() implies (#[trigger] carries(a[i], v)
        <==> carries(b[i], v)) by {
        assert(carries(a[i], rows[i]));
        assert(carries(b[i], rows[i]));
    }
}

/// The start page is the same text on every request.
pub proof fn lemma_index_repeats(a: &str, b: &str)
    requires
        a@ == INDEX_HTML@,
        b@ == INDEX_HTML@,
    ensures
        a@ == b@,
{
}

} // verus!
