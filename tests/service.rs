use thelist::handler::post_reply;
use thelist::item::{items_from_rows, ListItem};
use thelist::page::{failure_page, index_page, success_page, FAILURE_HTML, INDEX_HTML, SUCCESS_HEAD, SUCCESS_TAIL};
use thelist::table::ListTable;

fn values(items: &[ListItem]) -> Vec<Option<String>> {
    items.iter().map(|i| i.listitem.clone()).collect()
}

#[test]
fn post_milk_then_list() {
    let mut table = ListTable::new();
    let page = table.post_list("listitem=Milk".to_string());
    assert!(page.contains("Milk"));
    assert_eq!(page, format!("{}Milk{}", SUCCESS_HEAD, SUCCESS_TAIL));
    let items = table.fetch_all();
    assert_eq!(values(&items), vec![Some("Milk".to_string())]);
}

#[test]
fn post_without_key_stores_nothing() {
    let mut table = ListTable::new();
    let page = table.post_list("foo=bar".to_string());
    assert_eq!(page, FAILURE_HTML);
    assert!(table.fetch_all().is_empty());
}

#[test]
fn post_with_empty_value_stores_nothing() {
    let mut table = ListTable::new();
    table.post_list("listitem=Bread".to_string());
    let page = table.post_list("listitem=".to_string());
    assert_eq!(page, FAILURE_HTML);
    assert_eq!(values(&table.fetch_all()), vec![Some("Bread".to_string())]);
}

#[test]
fn empty_table_lists_nothing() {
    assert!(ListTable::new().fetch_all().is_empty());
}

#[test]
fn listing_holds_every_posted_value() {
    let mut table = ListTable::new();
    table.post_list("listitem=Milk".to_string());
    table.post_list("foo=bar".to_string());
    table.post_list("x=1&listitem=green+tea".to_string());
    table.post_list("listitem=Milk".to_string());
    let mut got: Vec<String> = table.fetch_all().into_iter().map(|i| i.listitem.unwrap()).collect();
    got.sort();
    assert_eq!(got, vec!["Milk".to_string(), "Milk".to_string(), "green tea".to_string()]);
}

#[test]
fn repeated_reads_agree() {
    let mut table = ListTable::new();
    table.post_list("listitem=a".to_string());
    table.post_list("listitem=b".to_string());
    assert_eq!(values(&table.fetch_all()), values(&table.fetch_all()));
    assert_eq!(index_page(), index_page());
    assert_eq!(index_page(), INDEX_HTML);
}

#[test]
fn reply_for_value() {
    let reply = post_reply("listitem=hello+world%21".to_string());
    assert_eq!(reply.insert, Some("hello world!".to_string()));
    assert_eq!(reply.page, success_page("hello world!"));
}

#[test]
fn reply_without_value() {
    let reply = post_reply("foo=bar".to_string());
    assert_eq!(reply.insert, None);
    assert_eq!(reply.page, failure_page());
}

#[test]
fn success_page_is_not_escaped() {
    let page = success_page("<b>x</b>");
    assert_eq!(page, format!("{}<b>x</b>{}", SUCCESS_HEAD, SUCCESS_TAIL));
}

#[test]
fn rows_become_items_in_order() {
    let rows = vec!["one".to_string(), "two".to_string()];
    let items = items_from_rows(&rows);
    assert_eq!(values(&items), vec![Some("one".to_string()), Some("two".to_string())]);
    assert_eq!(items[1].value(), Some(&"two".to_string()));
    assert!(items_from_rows(&Vec::new()).is_empty());
}

#[test]
fn item_without_value() {
    let item = ListItem { listitem: None };
    assert_eq!(item.value(), None);
    assert_eq!(ListItem::from_row("x".to_string()).listitem, Some("x".to_string()));
}
