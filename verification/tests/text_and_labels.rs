use eip_operator::labels::Labels;
use eip_operator::text::{clone_list, clone_opt, contains_text, position_of, str_eq, str_lt};

fn labels(pairs: &[(&str, &str)]) -> Labels {
    let mut labels = Labels::new();
    for (key, value) in pairs {
        labels.insert(key.to_string(), value.to_string());
    }
    labels
}

#[test]
fn str_eq_compares_characters() {
    assert!(str_eq("", ""));
    assert!(str_eq("abc", "abc"));
    assert!(!str_eq("abc", "abd"));
    assert!(!str_eq("abc", "ab"));
    assert!(!str_eq("ab", "abc"));
    assert!(str_eq("héllo", "héllo"));
    assert!(!str_eq("héllo", "hello"));
}

#[test]
fn str_lt_is_dictionary_order() {
    assert!(str_lt("a", "b"));
    assert!(!str_lt("b", "a"));
    assert!(!str_lt("a", "a"));
    assert!(str_lt("", "a"));
    assert!(!str_lt("a", ""));
    assert!(!str_lt("", ""));
    assert!(str_lt("ab", "abc"));
    assert!(!str_lt("abc", "ab"));
    assert!(str_lt("abc", "abd"));
    assert!(str_lt("Z", "a"));
    assert!(str_lt("node-10", "node-2"));
}

#[test]
fn str_lt_agrees_with_the_order_of_std() {
    let words = ["", "a", "ab", "b", "n-a", "n-b", "é", "z", "€", "node-1", "node-10"];
    for a in words {
        for b in words {
            assert_eq!(str_lt(a, b), a < b, "{:?} < {:?}", a, b);
        }
    }
}

#[test]
fn optional_strings_are_copied() {
    let some = Some("x".to_string());
    assert_eq!(clone_opt(&some), some);
    assert_eq!(clone_opt(&None), None);
}

#[test]
fn lists_of_strings_are_searched_from_the_front() {
    let list = vec!["a".to_string(), "b".to_string(), "a".to_string()];
    assert_eq!(position_of(&list, "a"), Some(0));
    assert_eq!(position_of(&list, "b"), Some(1));
    assert_eq!(position_of(&list, "c"), None);
    assert!(contains_text(&list, "b"));
    assert!(!contains_text(&list, "c"));
    assert_eq!(clone_list(&list), list);
    assert_eq!(position_of(&Vec::new(), "a"), None);
}

#[test]
fn labels_start_empty() {
    let empty = Labels::new();
    assert_eq!(empty.len(), 0);
    assert!(empty.is_empty());
    assert_eq!(empty.get("a"), None);
    assert!(!empty.contains_key("a"));
}

#[test]
fn labels_keep_one_value_per_key() {
    let mut l = Labels::new();
    l.insert("k".to_string(), "v1".to_string());
    l.insert("k".to_string(), "v2".to_string());
    assert_eq!(l.len(), 1);
    assert_eq!(l.get("k").map(|s| s.as_str()), Some("v2"));
}

#[test]
fn labels_are_kept_in_the_order_of_their_keys() {
    let l = labels(&[("c", "3"), ("a", "1"), ("b", "2")]);
    assert_eq!(l.len(), 3);
    assert!(!l.is_empty());
    assert_eq!(l.key_at(0), "a");
    assert_eq!(l.value_at(0), "1");
    assert_eq!(l.key_at(1), "b");
    assert_eq!(l.value_at(1), "2");
    assert_eq!(l.key_at(2), "c");
    assert_eq!(l.value_at(2), "3");
    assert_eq!(l, labels(&[("a", "1"), ("b", "2"), ("c", "3")]));
}

#[test]
fn labels_are_found_by_key() {
    let l = labels(&[("topology", "az-a"), ("role", "db")]);
    assert_eq!(l.get("topology").map(|s| s.as_str()), Some("az-a"));
    assert_eq!(l.get("role").map(|s| s.as_str()), Some("db"));
    assert_eq!(l.get("rol"), None);
    assert!(l.contains_key("role"));
    assert!(!l.contains_key("roles"));
}

#[test]
fn submap_asks_for_every_key_with_its_value() {
    let all = labels(&[("a", "1"), ("b", "2"), ("c", "3")]);
    assert!(Labels::new().is_submap_of(&all));
    assert!(Labels::new().is_submap_of(&Labels::new()));
    assert!(labels(&[("a", "1")]).is_submap_of(&all));
    assert!(labels(&[("a", "1"), ("c", "3")]).is_submap_of(&all));
    assert!(all.is_submap_of(&all));
    assert!(!labels(&[("a", "2")]).is_submap_of(&all));
    assert!(!labels(&[("d", "1")]).is_submap_of(&all));
    assert!(!all.is_submap_of(&labels(&[("a", "1")])));
}

#[test]
fn a_copy_of_labels_is_equal_and_independent() {
    let first = labels(&[("a", "1"), ("b", "2")]);
    let mut copy = first.clone();
    assert_eq!(copy, first);
    copy.insert("c".to_string(), "3".to_string());
    assert_eq!(first.len(), 2);
    assert_eq!(copy.len(), 3);
}
