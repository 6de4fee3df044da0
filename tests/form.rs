use thelist::form::{format_data, listitem_field};

fn decoded(body: &str) -> Option<String> {
    format_data(body.to_string())
}

#[test]
fn plus_and_percent_decode() {
    assert_eq!(decoded("foo=1&listitem=hello+world%21"), Some("hello world!".to_string()));
}

#[test]
fn field_text_keeps_percent_sequences() {
    assert_eq!(listitem_field("foo=1&listitem=hello+world%21"), Some("hello world%21".to_string()));
}

#[test]
fn plain_value() {
    assert_eq!(decoded("listitem=Milk"), Some("Milk".to_string()));
}

#[test]
fn missing_key_is_absent() {
    assert_eq!(decoded("foo=bar"), None);
    assert_eq!(listitem_field("foo=bar"), None);
}

#[test]
fn empty_body_is_absent() {
    assert_eq!(decoded(""), None);
}

#[test]
fn empty_value_is_absent() {
    assert_eq!(decoded("listitem="), None);
    assert_eq!(decoded("a=1&listitem=&b=2"), None);
}

#[test]
fn first_matching_segment_wins() {
    assert_eq!(decoded("listitem=first&listitem=second"), Some("first".to_string()));
    assert_eq!(decoded("listitem=&listitem=second"), None);
}

#[test]
fn key_is_case_sensitive_and_anchored() {
    assert_eq!(decoded("ListItem=a"), None);
    assert_eq!(decoded("xlistitem=a"), None);
    assert_eq!(decoded("listitem"), None);
    assert_eq!(decoded("a&b&listitem=z"), Some("z".to_string()));
}

#[test]
fn value_ends_at_ampersand() {
    assert_eq!(decoded("listitem=eggs&other=1"), Some("eggs".to_string()));
    assert_eq!(decoded("listitem=a=b"), Some("a=b".to_string()));
}

#[test]
fn encoded_plus_stays_plus() {
    assert_eq!(decoded("listitem=1%2B1"), Some("1+1".to_string()));
}

#[test]
fn multibyte_percent_sequence() {
    assert_eq!(decoded("listitem=caf%C3%A9"), Some("caf\u{e9}".to_string()));
}

#[test]
fn malformed_percent_kept() {
    assert_eq!(decoded("listitem=%"), Some("%".to_string()));
    assert_eq!(decoded("listitem=100%zz"), Some("100%zz".to_string()));
}

#[test]
fn invalid_utf8_replaced() {
    assert_eq!(decoded("listitem=%FF"), Some("\u{fffd}".to_string()));
}

#[test]
fn non_ascii_body() {
    assert_eq!(decoded("k=\u{e9}&listitem=th\u{e9}+vert"), Some("th\u{e9} vert".to_string()));
}
