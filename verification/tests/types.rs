//! Names of channels, tokens, tables and texts.

use axum_channels::table::Table;
use axum_channels::text::same_text;
use axum_channels::types::{get_id, get_token, ChannelId, Token};
use std::sync::Arc;

#[test]
fn key_and_value_stand_around_the_first_colon() {
    let id: ChannelId = "room:1:2".into();
    assert_eq!(id.key(), Some("room"));
    assert_eq!(id.value(), Some("1:2"));
    assert_eq!(id.id(), "room:1:2");
}

#[test]
fn a_name_without_a_colon_has_neither_key_nor_value() {
    let id: ChannelId = "default".into();
    assert_eq!(id.key(), None);
    assert_eq!(id.value(), None);
    assert_eq!(id.id(), "default");
    let empty: ChannelId = "".into();
    assert_eq!(empty.key(), None);
    assert_eq!(empty.value(), None);
}

#[test]
fn key_and_value_can_be_empty() {
    let id: ChannelId = ":".into();
    assert_eq!(id.key(), Some(""));
    assert_eq!(id.value(), Some(""));
}

#[test]
fn a_name_is_split_by_characters() {
    let id: ChannelId = "zimmer\u{e9}\u{4e2d}\u{1f600}:\u{fc}ber:\u{ff1a}".into();
    assert_eq!(id.key(), Some("zimmer\u{e9}\u{4e2d}\u{1f600}"));
    assert_eq!(id.value(), Some("\u{fc}ber:\u{ff1a}"));
    let wide: ChannelId = "a\u{ff1a}b".into();
    assert_eq!(wide.key(), None);
}

#[test]
fn names_are_equal_when_their_texts_are() {
    let a: ChannelId = "room:1".into();
    let b: ChannelId = "room:1".parse().unwrap();
    let c = ChannelId::new("room:2");
    assert!(a == b);
    assert!(a != c);
    assert!(a.clone() == a);
    assert_eq!(a.clone().key(), Some("room"));
}

#[test]
fn names_and_tokens_are_printed_in_brackets() {
    let id: ChannelId = "default:*".into();
    assert_eq!(id.to_string(), "Channel<default:*>");
    assert_eq!(Token::from(0).to_string(), "<0>");
    assert_eq!(Token::from(9).to_string(), "<9>");
    assert_eq!(Token::from(1203).to_string(), "<1203>");
    let largest = format!("<{}>", usize::MAX);
    assert_eq!(Token::from(usize::MAX).to_string(), largest);
}

#[test]
fn tokens_count_up_and_start_over() {
    let mut counter: usize = 1;
    assert_eq!(get_token(&mut counter), Token(1));
    assert_eq!(get_token(&mut counter), Token(2));
    assert_eq!(get_id(&mut counter), 3);
    let mut last = usize::MAX;
    assert_eq!(get_token(&mut last), Token(usize::MAX));
    assert_eq!(get_token(&mut last), Token(0));
}

#[test]
fn a_table_keeps_one_value_for_each_text() {
    let mut table: Table<u32> = Table::new();
    assert_eq!(table.len(), 0);
    table.or_insert(Arc::from("a"), 1);
    table.or_insert(Arc::from("b"), 2);
    table.or_insert(Arc::from("a"), 3);
    assert_eq!(table.len(), 2);
    assert_eq!(table.get("a"), Some(&1));
    assert_eq!(table.get("b"), Some(&2));
    assert_eq!(table.get("c"), None);
    let (name, value) = table.entry(1);
    assert_eq!((&**name, *value), ("b", 2));
    table.insert(Arc::from("a"), 4);
    assert_eq!(table.get("a"), Some(&4));
    assert_eq!(&**table.entry(0).0, "b");
    assert_eq!(&**table.entry(1).0, "a");
    table.remove("a");
    table.remove("c");
    assert!(!table.contains_key("a"));
    assert!(table.contains_key("b"));
    assert_eq!(table.len(), 1);
}

#[test]
fn texts_are_compared_by_their_characters() {
    assert!(same_text("", ""));
    assert!(same_text("r\u{e4}ume", "r\u{e4}ume"));
    assert!(!same_text("abc", "abd"));
    assert!(!same_text("abc", "ab"));
}
