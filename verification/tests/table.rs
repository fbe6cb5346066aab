use happy_cappy::pet::manifest::Animation;
use happy_cappy::pet::table::{compare_str, AnimationTable};

#[test]
fn table_keeps_names_in_byte_order_and_replaces_on_insert() {
    let mut t = AnimationTable::new();
    assert!(t.insert("walk".to_string(), Animation::from_indices(&[1])).is_none());
    assert!(t.insert("idle".to_string(), Animation::from_indices(&[2])).is_none());
    assert!(t.insert("Zed".to_string(), Animation::from_indices(&[3])).is_none());
    assert_eq!(t.len(), 3);
    assert_eq!(t.key_at(0), "Zed");
    assert_eq!(t.key_at(1), "idle");
    assert_eq!(t.key_at(2), "walk");
    let previous = t.insert("idle".to_string(), Animation::from_indices(&[9]));
    assert_eq!(previous.unwrap().frames[0].index, 2);
    assert_eq!(t.len(), 3);
    assert_eq!(t.get("idle").unwrap().frames[0].index, 9);
    assert!(t.get("missing").is_none());
    assert!(t.contains_key("walk"));
    assert_eq!(t.find("walk"), Some(2));
    assert_eq!(t.value_at(0).frames[0].index, 3);
    let copy = t.duplicate();
    assert_eq!(copy.len(), 3);
    assert_eq!(copy.key_at(1), "idle");
}

#[test]
fn names_compare_like_strings() {
    assert_eq!(compare_str("a", "b"), -1);
    assert_eq!(compare_str("b", "a"), 1);
    assert_eq!(compare_str("ab", "ab"), 0);
    assert_eq!(compare_str("ab", "abc"), -1);
    assert_eq!(compare_str("é", "z"), 1);
}
