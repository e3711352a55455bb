use file_manager::navigation::NavigationState;

#[test]
fn fresh_history_cannot_travel() {
    let nav = NavigationState::new(String::from("/home/user"));
    assert!(!nav.can_go_back());
    assert!(!nav.can_go_forward());
    assert_eq!(nav.current_path, "/home/user");
    assert_eq!(nav.path_input, "/home/user");
    assert_eq!(nav.get_visited_paths(), vec![String::from("/home/user")]);
}

#[test]
fn back_available_after_navigation() {
    let mut nav = NavigationState::new(String::from("/a"));
    assert!(!nav.can_go_back());
    nav.navigate_to(String::from("/b"));
    assert!(nav.can_go_back());
    nav.navigate_to(String::from("/c"));
    assert!(nav.can_go_back());
}

#[test]
fn duplicate_navigation_is_suppressed() {
    let mut nav = NavigationState::new(String::from("/a"));
    nav.navigate_to(String::from("/b"));
    let before = nav.get_visited_paths().len();
    nav.navigate_to(String::from("/b"));
    assert_eq!(nav.get_visited_paths().len(), before);
    assert_eq!(nav.current_path, "/b");
}

#[test]
fn branch_truncation_discards_forward_entries() {
    let mut nav = NavigationState::new(String::from("/a"));
    nav.navigate_to(String::from("/b"));
    nav.navigate_to(String::from("/c"));
    let back = nav.go_back().expect("back from /c");
    assert_eq!(back.path, "/b");
    assert!(nav.can_go_forward());
    nav.navigate_to(String::from("/d"));
    assert!(!nav.can_go_forward());
    assert!(nav.go_forward().is_none());
    assert_eq!(nav.current_path, "/d");
}

#[test]
fn history_is_bounded_and_cursor_stays_at_tail() {
    let mut nav = NavigationState::new(String::from("/start"));
    for i in 0..60 {
        nav.navigate_to(format!("/dir{}", i));
        assert!(nav.get_visited_paths().len() <= 50);
        assert!(!nav.can_go_forward());
        assert_eq!(nav.current_path, format!("/dir{}", i));
    }
    assert_eq!(nav.get_visited_paths().len(), 50);
}

#[test]
fn scenario_scroll_remembered_across_travel() {
    let mut nav = NavigationState::new(String::from("/home/user"));
    assert!(!nav.can_go_back());
    nav.navigate_to(String::from("/home/user/docs"));
    assert!(nav.can_go_back());
    nav.update_current_scroll(42.0f32.to_bits());
    let back = nav.go_back().expect("back to /home/user");
    assert_eq!(back.path, "/home/user");
    assert_eq!(f32::from_bits(back.scroll), 0.0);
    let fwd = nav.go_forward().expect("forward to docs");
    assert_eq!(fwd.path, "/home/user/docs");
    assert_eq!(f32::from_bits(fwd.scroll), 42.0);
}

#[test]
fn revisiting_a_directory_recalls_its_scroll() {
    let mut nav = NavigationState::new(String::from("/a"));
    nav.update_current_scroll(7u32);
    nav.navigate_to(String::from("/b"));
    nav.navigate_to(String::from("/a"));
    assert_eq!(nav.get_current_scroll(), 7u32);
}

#[test]
fn boundary_travel_is_a_no_op() {
    let mut nav = NavigationState::new(String::from("/only"));
    assert!(nav.go_back().is_none());
    assert!(nav.go_forward().is_none());
    assert_eq!(nav.current_path, "/only");
    assert_eq!(nav.get_visited_paths().len(), 1);
}

#[test]
fn visited_paths_keep_non_adjacent_repeats() {
    let mut nav = NavigationState::new(String::from("/a"));
    nav.navigate_to(String::from("/b"));
    nav.navigate_to(String::from("/a"));
    assert_eq!(
        nav.get_visited_paths(),
        vec![String::from("/a"), String::from("/b"), String::from("/a")]
    );
}

#[test]
fn scroll_update_changes_only_current_entry() {
    let mut nav = NavigationState::new(String::from("/a"));
    nav.navigate_to(String::from("/b"));
    nav.update_current_scroll(9u32);
    assert_eq!(nav.get_current_scroll(), 9u32);
    let back = nav.go_back().expect("back to /a");
    assert_eq!(back.scroll, 0u32);
    let fwd = nav.go_forward().expect("forward to /b");
    assert_eq!(fwd.scroll, 9u32);
}
