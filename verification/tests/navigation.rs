use httptui::app::{is_within_block, Rect, RequestType, SelectionState, StatefulList, TabContainer};

#[test]
fn select_next_from_none_selects_first() {
    let mut list = StatefulList::with_items(vec!["a", "b", "c"]);
    assert!(list.get().is_none());
    list.next();
    assert_eq!(list.get(), Some(&"a"));
}

#[test]
fn select_next_wraps_cyclically() {
    let mut list = StatefulList::with_items(vec!["a", "b", "c"]);
    list.next();
    // three more applications walk the whole cycle and return to the start
    list.next();
    list.next();
    list.next();
    assert_eq!(list.get(), Some(&"a"));
    assert_eq!(list.selected, Some(0));
}

#[test]
fn select_previous_wraps_from_first_to_last() {
    let mut list = StatefulList::with_items(vec!["a", "b", "c"]);
    list.next();
    list.previous();
    assert_eq!(list.get(), Some(&"c"));
    list.previous();
    assert_eq!(list.get(), Some(&"b"));
}

#[test]
fn select_previous_from_none_selects_first() {
    let mut list = StatefulList::with_items(vec!["a", "b"]);
    list.previous();
    assert_eq!(list.get(), Some(&"a"));
}

#[test]
fn tabs_clamp_instead_of_wrapping() {
    let mut tabs = TabContainer { items: vec!["q", "h", "b", "a"], index: 0 };
    // more applications than there are items: saturates at the last index
    for _ in 0..10 {
        tabs.move_right();
    }
    assert_eq!(tabs.index, 3);
    for _ in 0..10 {
        tabs.move_left();
    }
    assert_eq!(tabs.index, 0);
}

#[test]
fn cyclic_and_clamped_navigation_contrast() {
    let mut list = StatefulList::with_items(vec![0u8, 1, 2, 3]);
    let mut tabs = TabContainer { items: vec![0u8, 1, 2, 3], index: 0 };
    list.next();
    for _ in 0..5 {
        list.next();
        tabs.move_right();
    }
    // five steps from index 0 over four items: the cycle wraps to 1, the strip stops at 3
    assert_eq!(list.selected, Some(1));
    assert_eq!(tabs.index, 3);
}

#[test]
fn advance_four_times_returns_to_method_field() {
    let mut s = SelectionState::MethodField;
    for _ in 0..4 {
        s = s.next();
    }
    assert_eq!(s, SelectionState::MethodField);
}

#[test]
fn advance_cycle_order() {
    let s = SelectionState::Unfocused;
    let s = s.next();
    assert_eq!(s, SelectionState::MethodField);
    let s = s.next();
    assert_eq!(s, SelectionState::UrlField);
    let s = s.next();
    assert_eq!(s, SelectionState::TabStrip);
    let s = s.next();
    assert_eq!(s, SelectionState::ActivePane);
    let s = s.next();
    assert_eq!(s, SelectionState::MethodField);
}

#[test]
fn retreat_inverts_advance_on_cycle_states() {
    for s in [
        SelectionState::MethodField,
        SelectionState::UrlField,
        SelectionState::TabStrip,
        SelectionState::ActivePane,
        SelectionState::MethodPopup,
    ] {
        assert_eq!(s.next().previous(), s);
        assert_eq!(s.previous().next(), s);
    }
}

#[test]
fn popup_ignores_advance_and_retreat() {
    assert_eq!(SelectionState::MethodPopup.next(), SelectionState::MethodPopup);
    assert_eq!(SelectionState::MethodPopup.previous(), SelectionState::MethodPopup);
}

#[test]
fn method_names() {
    assert_eq!(RequestType::Get.as_str(), "GET");
    assert_eq!(RequestType::Post.as_str(), "POST");
    assert_eq!(RequestType::Put.as_str(), "PUT");
    assert_eq!(RequestType::Delete.as_str(), "DELETE");
    assert_eq!(RequestType::Head.as_str(), "HEAD");
    assert_eq!(RequestType::Options.as_str(), "OPTIONS");
}

#[test]
fn hit_test_includes_all_boundaries() {
    let r = Rect { x: 2, y: 3, width: 4, height: 5 };
    assert!(is_within_block(&r, (2, 3)));
    assert!(is_within_block(&r, (6, 8)));
    assert!(is_within_block(&r, (4, 5)));
    assert!(!is_within_block(&r, (1, 3)));
    assert!(!is_within_block(&r, (7, 3)));
    assert!(!is_within_block(&r, (2, 9)));
}

#[test]
fn hit_test_never_overflows_at_the_terminal_edge() {
    let r = Rect { x: 65535, y: 65535, width: 65535, height: 65535 };
    assert!(is_within_block(&r, (65535, 65535)));
    assert!(!is_within_block(&r, (0, 0)));
}
