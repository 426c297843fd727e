use secret_operators::string_map::{ByteMap, FieldMap, StringMap};
use secret_operators::text::{split_words, starts_with, str_eq};

#[test]
fn starts_with_accepts_a_prefix() {
    assert!(starts_with("team-a", "team-"));
    assert!(starts_with("team-a", ""));
    assert!(starts_with("team-a", "team-a"));
}

#[test]
fn starts_with_refuses_what_is_no_prefix() {
    assert!(!starts_with("team-a", "team-b"));
    assert!(!starts_with("team", "team-a"));
    assert!(!starts_with("", "x"));
    assert!(!starts_with("xteam-a", "team"));
}

#[test]
fn starts_with_compares_characters_not_bytes() {
    assert!(starts_with("\u{e9}t\u{e9}", "\u{e9}"));
    assert!(!starts_with("\u{e9}t\u{e9}", "\u{e8}"));
}

#[test]
fn str_eq_tells_equal_from_unequal() {
    assert!(str_eq("", ""));
    assert!(str_eq("abc", "abc"));
    assert!(!str_eq("abc", "abd"));
    assert!(!str_eq("abc", "ab"));
    assert!(!str_eq("ab", "abc"));
}

#[test]
fn split_words_drops_empty_pieces() {
    assert_eq!(split_words(""), Vec::<String>::new());
    assert_eq!(split_words("   "), Vec::<String>::new());
    assert_eq!(split_words("a"), vec!["a".to_string()]);
    assert_eq!(split_words(" a  bc   d "), vec!["a".to_string(), "bc".to_string(), "d".to_string()]);
}

#[test]
fn split_words_splits_at_the_space_only() {
    assert_eq!(split_words("a\tb c\nd"), vec!["a\tb".to_string(), "c\nd".to_string()]);
    assert_eq!(split_words("\u{e9}\u{e9} \u{fc}"), vec!["\u{e9}\u{e9}".to_string(), "\u{fc}".to_string()]);
}

#[test]
fn split_words_handles_long_texts() {
    let text = "ab \u{e9} ".repeat(200_000);
    let words = split_words(&text);
    assert_eq!(words.len(), 400_000);
    assert_eq!(words[0], "ab");
    assert_eq!(words[399_999], "\u{e9}");
}

#[test]
fn string_map_starts_empty() {
    let map: FieldMap = StringMap::new();
    assert_eq!(map.len(), 0);
    assert!(!map.contains_key("a"));
    assert!(map.get("a").is_none());
    assert!(map.entries().is_empty());
}

#[test]
fn string_map_insert_adds_and_replaces() {
    let mut map = FieldMap::new();
    map.insert("a".to_string(), "1".to_string());
    map.insert("b".to_string(), "2".to_string());
    assert_eq!(map.len(), 2);
    assert_eq!(map.get("a"), Some(&"1".to_string()));
    map.insert("a".to_string(), "3".to_string());
    assert_eq!(map.len(), 2);
    assert_eq!(map.get("a"), Some(&"3".to_string()));
    assert_eq!(map.get("b"), Some(&"2".to_string()));
    assert!(map.contains_key("b"));
    assert!(!map.contains_key("c"));
}

#[test]
fn string_map_entries_hold_each_key_once() {
    let mut map = FieldMap::new();
    map.insert("a".to_string(), "1".to_string());
    map.insert("a".to_string(), "2".to_string());
    map.insert("b".to_string(), "3".to_string());
    let mut entries = map.entries().clone();
    entries.sort();
    assert_eq!(entries, vec![("a".to_string(), "2".to_string()), ("b".to_string(), "3".to_string())]);
}

#[test]
fn string_map_without_prefix_drops_matching_keys() {
    let mut map = FieldMap::new();
    map.insert("own/a".to_string(), "1".to_string());
    map.insert("other/b".to_string(), "2".to_string());
    map.insert("own/".to_string(), "3".to_string());
    map.insert("ow".to_string(), "4".to_string());
    let kept = map.without_prefix("own/");
    assert_eq!(kept.len(), 2);
    assert_eq!(kept.get("other/b"), Some(&"2".to_string()));
    assert_eq!(kept.get("ow"), Some(&"4".to_string()));
    assert!(!kept.contains_key("own/a"));
    assert!(!kept.contains_key("own/"));
    assert_eq!(map.len(), 4);
}

#[test]
fn string_map_clone_is_independent() {
    let mut map = ByteMap::new();
    map.insert("k".to_string(), vec![1, 2, 3]);
    let mut copy = map.clone();
    copy.insert("k".to_string(), vec![9]);
    copy.insert("l".to_string(), vec![]);
    assert_eq!(map.get("k"), Some(&vec![1, 2, 3]));
    assert_eq!(map.len(), 1);
    assert_eq!(copy.get("k"), Some(&vec![9]));
    assert_eq!(copy.len(), 2);
    let fields = {
        let mut f = FieldMap::new();
        f.insert("x".to_string(), "y".to_string());
        f
    };
    let other = fields.clone();
    assert_eq!(other.get("x"), Some(&"y".to_string()));
    assert_eq!(other.len(), 1);
}
