use firemusic::firecore::select::{truncate, SelectKey, SelectOutcome, SelectState};

#[test]
fn short_lists_show_everything() {
    let s = SelectState::new(4, false);
    assert_eq!(s.page_size, 4);
    assert_eq!(s.visible_range(), (0, 4));
    assert_eq!(s.prompt_text("pick"), "pick");
}

#[test]
fn up_and_down_wrap() {
    let mut s = SelectState::new(3, false);
    assert!(matches!(s.handle_key(SelectKey::Up), SelectOutcome::Continue));
    assert_eq!(s.hovered, 2);
    s.handle_key(SelectKey::Down);
    assert_eq!(s.hovered, 0);
    s.handle_key(SelectKey::Down);
    assert_eq!(s.hovered, 1);
}

#[test]
fn long_lists_page_by_ten() {
    let mut s = SelectState::new(23, false);
    assert_eq!(s.page_size, 10);
    assert_eq!(s.prompt_text("results"), "results (Page 1/3)");
    s.handle_key(SelectKey::Right);
    assert_eq!(s.hovered, 10);
    s.handle_key(SelectKey::Right);
    assert_eq!(s.hovered, 20);
    assert_eq!(s.visible_range(), (20, 23));
    s.handle_key(SelectKey::Right);
    assert_eq!(s.hovered, 0);
    s.handle_key(SelectKey::Left);
    assert_eq!(s.hovered, 20);
    s.handle_key(SelectKey::Left);
    assert_eq!(s.hovered, 10);
}

#[test]
fn single_pick_confirms_the_hovered_line() {
    let mut s = SelectState::new(5, false);
    s.handle_key(SelectKey::Down);
    s.handle_key(SelectKey::Toggle);
    match s.handle_key(SelectKey::Confirm) {
        SelectOutcome::Confirmed(v) => assert_eq!(v, vec![1]),
        _ => panic!("expected a pick"),
    }
}

#[test]
fn multi_pick_gives_ticked_lines_in_order() {
    let mut s = SelectState::new(5, true);
    s.handle_key(SelectKey::Up);
    s.handle_key(SelectKey::Toggle);
    s.handle_key(SelectKey::Down);
    s.handle_key(SelectKey::Down);
    s.handle_key(SelectKey::Toggle);
    s.handle_key(SelectKey::Toggle);
    s.handle_key(SelectKey::Toggle);
    match s.handle_key(SelectKey::Confirm) {
        SelectOutcome::Confirmed(v) => assert_eq!(v, vec![1, 4]),
        _ => panic!("expected a pick"),
    }
}

#[test]
fn cancel_gives_nothing() {
    let mut s = SelectState::new(2, true);
    assert!(matches!(s.handle_key(SelectKey::Cancel), SelectOutcome::Cancelled));
    assert!(matches!(s.handle_key(SelectKey::Other), SelectOutcome::Continue));
}

#[test]
fn truncation() {
    assert_eq!(truncate("hello world", 8), "hello...");
    assert_eq!(truncate("hello", 5), "hello");
    assert_eq!(truncate("hello", 2), "he");
    assert_eq!(truncate("abcd", 1), "a");
    assert_eq!(truncate("abcd", 0), "");
    assert_eq!(truncate("abcd", 3), "...");
    for w in 0..8 {
        assert!(truncate("a long title", w).chars().count() <= w);
    }
    assert_eq!(truncate("h\u{e9}llo w", 6), "h\u{e9}l...");
}
