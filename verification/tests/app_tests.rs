use feather_frontend::app::{App, Route, State};
use feather_frontend::browse::Song;
use feather_frontend::keys::Key;
use feather_frontend::playlist_search::{PlayListSearch, PlayListSearchState};
use feather_frontend::search::{SearchAction, SearchEntry};

#[test]
fn chords_switch_major_views() {
    let mut a = App::new();
    assert_eq!(a.state, State::Global);
    assert!(App::starts_chord(Key::Char(':')));
    assert!(!App::starts_chord(Key::Char('s')));
    a.handle_chord(Key::Char('s'));
    assert_eq!(a.state, State::Search);
    a.handle_chord(Key::Char('h'));
    assert_eq!(a.state, State::History);
    a.handle_chord(Key::Char('u'));
    assert_eq!(a.state, State::UserPlaylist);
}

#[test]
fn player_chord_remembers_previous_view() {
    let mut a = App::new();
    a.handle_chord(Key::Char('s'));
    a.handle_chord(Key::Char('p'));
    assert_eq!(a.state, State::SongPlayer);
    assert_eq!(a.prev_state, Some(State::Search));
}

#[test]
fn help_chord_and_escape() {
    let mut a = App::new();
    a.handle_chord(Key::Char('?'));
    assert_eq!(a.state, State::HelpMode);
    assert!(a.help_mode);
    let route = a.handle_global_key(Key::Esc);
    assert_eq!(route, Route::Consumed);
    assert_eq!(a.state, State::Global);
    assert!(!a.help_mode);
}

#[test]
fn quit_chord_sets_exit() {
    let mut a = App::new();
    a.handle_chord(Key::Char('q'));
    assert!(a.exit);
}

#[test]
fn unrecognized_chords_are_ignored() {
    let mut a = App::new();
    a.handle_chord(Key::Char('z'));
    a.handle_chord(Key::Enter);
    assert_eq!(a.state, State::Global);
    assert!(!a.exit);
    assert!(!a.help_mode);
}

#[test]
fn keys_route_to_the_active_view() {
    let mut a = App::new();
    a.handle_chord(Key::Char('s'));
    assert_eq!(a.handle_global_key(Key::Char('x')), Route::ToSearch);
    a.handle_chord(Key::Char('h'));
    assert_eq!(a.handle_global_key(Key::Char('x')), Route::ToHistory);
    a.handle_chord(Key::Char('u'));
    assert_eq!(a.handle_global_key(Key::Char('x')), Route::ToUserPlaylist);
}

#[test]
fn player_overlay_keeps_keys_but_delegates_body() {
    let mut a = App::new();
    a.handle_chord(Key::Char('s'));
    a.handle_chord(Key::Char('p'));
    // Keys always go to the player while it is active...
    assert_eq!(a.handle_global_key(Key::Down), Route::ToPlayer);
    // ...while the body is delegated back to the remembered view.
    assert_eq!(a.body_view(), Some(State::Search));
}

#[test]
fn help_body_wins_over_everything() {
    let mut a = App::new();
    a.handle_chord(Key::Char('s'));
    a.handle_chord(Key::Char('?'));
    assert_eq!(a.body_view(), Some(State::HelpMode));
}

#[test]
fn bracket_toggles_between_search_and_browse() {
    let mut p = PlayListSearch::new(5);
    assert_eq!(p.state, PlayListSearchState::Search);
    p.handle_keystrokes(Key::Char('['), "");
    assert_eq!(p.state, PlayListSearchState::ViewSelectedPlaylist);
    p.handle_keystrokes(Key::Char('['), "");
    assert_eq!(p.state, PlayListSearchState::Search);
}

#[test]
fn keystrokes_follow_the_active_half() {
    let mut p = PlayListSearch::new(5);
    // Search half active: enter submits the line.
    let action = p.handle_keystrokes(Key::Enter, "jazz");
    assert!(matches!(action, SearchAction::SpawnQuery(_)));
    // Browse half active: enter does nothing there.
    p.handle_keystrokes(Key::Char('['), "");
    let action = p.handle_keystrokes(Key::Enter, "jazz");
    assert!(matches!(action, SearchAction::Nothing));
}

#[test]
fn tick_drains_both_channels() {
    let mut p = PlayListSearch::new(5);
    p.handle_keystrokes(Key::Enter, "lofi");
    let g = p.view.begin_load();
    let entries = vec![SearchEntry {
        title: "Lofi Beats".to_string(),
        id: "c1".to_string(),
        authors: vec!["DJ A".to_string()],
    }];
    let items = vec![Song {
        title: "track 0".to_string(),
        id: "s0".to_string(),
        artist_name: vec!["Artist".to_string()],
    }];
    p.tick(Some(Ok(entries)), Some((g, Ok(items))));
    assert_eq!(p.search.visible_entries().unwrap().len(), 1);
    assert_eq!(p.view.visible_songs().unwrap().len(), 1);
}

#[test]
fn tick_without_messages_changes_nothing() {
    let mut p = PlayListSearch::new(5);
    p.handle_keystrokes(Key::Enter, "lofi");
    p.tick(None, None);
    assert!(p.search.visible_entries().is_none());
    assert!(p.view.visible_songs().is_none());
}
