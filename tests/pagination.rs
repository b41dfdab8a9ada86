use roboat::pagination::{cursor_param, Limit, Page};

#[test]
fn page_with_cursor_is_not_final_even_when_empty() {
    let page: Page<u64> = Page { items: vec![], next_cursor: Some("x".to_string()) };
    assert!(!page.is_final());
}

#[test]
fn page_without_cursor_is_final_regardless_of_items() {
    let full: Page<u64> = Page { items: vec![1, 2, 3], next_cursor: None };
    assert!(full.is_final());
    let empty: Page<u64> = Page { items: vec![], next_cursor: None };
    assert!(empty.is_final());
}

#[test]
fn into_parts_keeps_everything() {
    let page: Page<u64> = Page { items: vec![4, 5], next_cursor: Some("c".to_string()) };
    assert_eq!(page.into_parts(), (vec![4, 5], Some("c".to_string())));
}

#[test]
fn limits_round_trip() {
    for (limit, n) in [
        (Limit::Ten, 10),
        (Limit::TwentyFive, 25),
        (Limit::Fifty, 50),
        (Limit::Hundred, 100),
    ] {
        assert_eq!(limit.to_u64(), n);
        assert_eq!(Limit::from_u64(n), Some(limit));
    }
}

#[test]
fn other_page_sizes_are_refused() {
    for n in [0u64, 1, 9, 11, 20, 30, 99, 101, u64::MAX] {
        assert_eq!(Limit::from_u64(n), None);
    }
}

#[test]
fn cursor_is_echoed_verbatim() {
    assert_eq!(cursor_param(Some("abc_123==".to_string())), "abc_123==");
    assert_eq!(cursor_param(None), "");
}
