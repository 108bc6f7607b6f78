use synctr_engine::text::str_le;

#[test]
fn names_sort_by_character_then_length() {
    assert!(str_le("a", "b"));
    assert!(!str_le("b", "a"));
    assert!(str_le("doc", "docs"));
    assert!(!str_le("docs", "doc"));
    assert!(str_le("docs", "docs"));
    assert!(str_le("", ""));
    assert!(str_le("Z", "a"));
    assert!(str_le("a-b", "a_b"));
}
