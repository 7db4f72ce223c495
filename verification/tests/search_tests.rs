use feather_frontend::keys::Key;
use feather_frontend::search::{
    PlayListSearchComponent, PlayListSearchComponentState, SearchAction, SearchEntry, SearchResults,
};

fn entry(title: &str, id: &str, authors: &[&str]) -> SearchEntry {
    SearchEntry {
        title: title.to_string(),
        id: id.to_string(),
        authors: authors.iter().map(|a| a.to_string()).collect(),
    }
}

fn three_collections() -> Vec<SearchEntry> {
    vec![
        entry("Lofi Beats", "c1", &["DJ A"]),
        entry("Lofi Study", "c2", &["DJ B", "DJ C"]),
        entry("Lofi Sleep", "c3", &[]),
    ]
}

#[test]
fn trim_strips_whitespace() {
    assert_eq!(feather_frontend::text::trim("  lofi  "), "lofi");
    assert_eq!(feather_frontend::text::trim("\t lo fi\n"), "lo fi");
    assert_eq!(feather_frontend::text::trim("lofi"), "lofi");
    assert_eq!(feather_frontend::text::trim("   \t\n"), "");
    assert_eq!(feather_frontend::text::trim(""), "");
}

#[test]
fn submit_resets_cursor_and_display() {
    let mut c = PlayListSearchComponent::new();
    // Put the component into an arbitrary prior state first.
    c.accept_result(Ok(three_collections()));
    c.change_state();
    c.handle_keystrokes_search_result(Key::Down);
    c.handle_keystrokes_search_result(Key::Down);
    assert_eq!(c.selected, 2);
    assert!(c.display_content);
    c.change_state();
    let action = c.handle_keystrokes(Key::Enter, " chillhop radio ");
    assert_eq!(c.selected, 0);
    assert!(!c.display_content);
    assert_eq!(c.query, "chillhop radio");
    match action {
        SearchAction::SpawnQuery(q) => assert_eq!(q, "chillhop radio"),
        _ => panic!("submit must dispatch a query"),
    }
}

#[test]
fn submit_empty_line_dispatches_nothing() {
    let mut c = PlayListSearchComponent::new();
    let action = c.handle_keystrokes(Key::Enter, "   \t ");
    assert!(matches!(action, SearchAction::Nothing));
    assert_eq!(c.query, "");
    assert_eq!(c.selected, 0);
    assert!(!c.display_content);
}

#[test]
fn other_keys_go_to_the_text_widget() {
    let mut c = PlayListSearchComponent::new();
    let action = c.handle_keystrokes(Key::Char('x'), "");
    assert!(matches!(action, SearchAction::EditInput));
}

#[test]
fn tab_toggles_mode() {
    let mut c = PlayListSearchComponent::new();
    assert_eq!(c.state, PlayListSearchComponentState::SearchBar);
    c.handle_keystrokes(Key::Tab, "");
    assert_eq!(c.state, PlayListSearchComponentState::SearchResult);
    c.handle_keystrokes(Key::Tab, "");
    assert_eq!(c.state, PlayListSearchComponentState::SearchBar);
}

#[test]
fn lofi_query_scenario() {
    // Query submitted, debounce elapses, the provider returns 3 collections:
    // the list shows exactly 3 entries with the cursor at 0, and down moves
    // saturate at 2.
    let mut c = PlayListSearchComponent::new();
    let action = c.handle_keystrokes(Key::Enter, "lofi");
    assert!(matches!(action, SearchAction::SpawnQuery(_)));
    c.accept_result(Ok(three_collections()));
    let visible = c.visible_entries().expect("content must be displayable");
    assert_eq!(visible.len(), 3);
    assert_eq!(c.selected, 0);
    c.handle_keystrokes(Key::Tab, "");
    c.handle_keystrokes(Key::Down, "");
    c.handle_keystrokes(Key::Down, "");
    assert_eq!(c.selected, 2);
    c.handle_keystrokes(Key::Down, "");
    assert_eq!(c.selected, 2);
}

#[test]
fn cursor_saturates_at_both_ends() {
    let mut c = PlayListSearchComponent::new();
    c.accept_result(Ok(three_collections()));
    c.change_state();
    for _ in 0..10 {
        c.handle_keystrokes_search_result(Key::Char('j'));
        assert!(c.selected <= 2);
    }
    assert_eq!(c.selected, 2);
    for _ in 0..10 {
        c.handle_keystrokes_search_result(Key::Char('k'));
    }
    assert_eq!(c.selected, 0);
}

#[test]
fn cursor_does_not_move_without_results() {
    let mut c = PlayListSearchComponent::new();
    c.change_state();
    for _ in 0..5 {
        c.handle_keystrokes_search_result(Key::Down);
        assert_eq!(c.selected, 0);
    }
}

#[test]
fn confirm_sends_highlighted_id() {
    let mut c = PlayListSearchComponent::new();
    c.accept_result(Ok(three_collections()));
    c.change_state();
    c.handle_keystrokes_search_result(Key::Down);
    let action = c.handle_keystrokes_search_result(Key::Enter);
    match action {
        SearchAction::SendId(id) => assert_eq!(id, "c2"),
        _ => panic!("confirm must send the highlighted id"),
    }
}

#[test]
fn confirm_without_results_sends_nothing() {
    let mut c = PlayListSearchComponent::new();
    c.change_state();
    let action = c.handle_keystrokes_search_result(Key::Enter);
    assert!(matches!(action, SearchAction::Nothing));
}

#[test]
fn provider_error_scenario() {
    // A failed provider call becomes the displayed message: content flips
    // to displayable, but no list is rendered.
    let mut c = PlayListSearchComponent::new();
    c.handle_keystrokes(Key::Enter, "lofi");
    c.accept_result(Err("network unreachable".to_string()));
    assert!(c.display_content);
    assert!(c.visible_entries().is_none());
    assert_eq!(c.error_message().expect("message must be shown"), "network unreachable");
    assert_eq!(c.selected, 0);
}

#[test]
fn new_result_replaces_old_wholesale() {
    let mut c = PlayListSearchComponent::new();
    c.accept_result(Ok(three_collections()));
    c.accept_result(Ok(vec![entry("Only One", "solo", &["X"])]));
    let visible = c.visible_entries().expect("content must be displayable");
    assert_eq!(visible.len(), 1);
    assert_eq!(visible[0].id, "solo");
    // The cursor was clamped into the shorter list.
    assert_eq!(c.selected, 0);
}

#[test]
fn error_then_success_shows_the_list_again() {
    let mut c = PlayListSearchComponent::new();
    c.accept_result(Err("timeout".to_string()));
    assert!(matches!(c.results, SearchResults::Failed(_)));
    c.accept_result(Ok(three_collections()));
    assert!(c.error_message().is_none());
    assert_eq!(c.visible_entries().unwrap().len(), 3);
}
