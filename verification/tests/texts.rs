use std::collections::BTreeMap;

use oauth_token_exchange::str_map::StrMap;
use oauth_token_exchange::text::{
    chars_of, copy_list, copy_option, decimal, is_blank, join, replace_all, same_text, starts_with,
    trim_end_of,
};

#[test]
fn white_space_is_that_of_the_standard_library() {
    for c in '\0'..=char::MAX {
        assert_eq!(is_blank(&c.to_string()), c.is_whitespace());
    }
    assert!(is_blank(""));
    assert!(!is_blank("  x "));
}

#[test]
fn replacing_goes_from_left_to_right() {
    for (s, pattern, with) in [
        ("aaa", "aa", "b"),
        ("aaaa", "aa", "aa"),
        ("", "x", "y"),
        ("xax", "x", ""),
        ("äöä", "ä", "öö"),
        ("no match", "zz", "y"),
        ("abab", "abab", "-"),
        ("short", "longer than it", "y"),
    ] {
        assert_eq!(replace_all(s, pattern, with), s.replace(pattern, with));
    }
}

#[test]
fn joining_separates_neighbours() {
    assert_eq!(join(&vec![], " "), "");
    assert_eq!(join(&vec!["read".to_owned()], " "), "read");
    assert_eq!(join(&vec!["a".to_owned(), "".to_owned(), "c".to_owned()], " "), "a  c");
}

#[test]
fn decimal_notation() {
    for n in [0, 7, 10, 99, 100, 60_001, u64::MAX] {
        assert_eq!(decimal(n), n.to_string());
    }
}

#[test]
fn ends_and_starts() {
    assert_eq!(trim_end_of("com.acme/*", '*'), "com.acme/");
    assert_eq!(trim_end_of("a*b**", '*'), "a*b");
    assert_eq!(trim_end_of("***", '*'), "");
    assert!(starts_with("häuser", "hä"));
    assert!(!starts_with("h", "hä"));
    assert!(same_text("hä", "hä"));
    assert!(!same_text("hä", "h"));
    assert_eq!(chars_of("hä"), vec!['h', 'ä']);
}

#[test]
fn copies_hold_the_same() {
    assert_eq!(copy_option(&Some("a".to_owned())), Some("a".to_owned()));
    assert_eq!(copy_option(&None), None);
    let list = vec!["a".to_owned(), "b".to_owned()];
    assert_eq!(copy_list(&list), list);
}

#[test]
fn map_behaves_as_the_ordered_map_of_the_standard_library() {
    let keys = ["b", "", "a", "ab", "é", "z", "\u{10000}", "\u{ffff}", "a", "B", "ab", "\u{7f}"];
    let mut map: StrMap<usize> = StrMap::new();
    let mut model: BTreeMap<String, usize> = BTreeMap::new();
    assert!(map.is_empty());
    for (n, key) in keys.iter().enumerate() {
        assert_eq!(map.insert((*key).to_owned(), n), model.insert((*key).to_owned(), n));
        assert_eq!(map.len(), model.len());
    }
    assert!(!map.is_empty());
    for (at, (key, value)) in model.iter().enumerate() {
        assert_eq!(map.entry(at), (key, value));
        assert_eq!(map.get(key), Some(value));
    }
    assert_eq!(map.get("missing"), None);
    assert_eq!(map.clone(), map);
}
