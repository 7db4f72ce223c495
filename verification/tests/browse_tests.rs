use feather_frontend::browse::{SeletectPlayListView, Song};
use feather_frontend::keys::Key;

fn song(n: usize) -> Song {
    Song {
        title: format!("track {}", n),
        id: format!("s{}", n),
        artist_name: vec!["Artist".to_string()],
    }
}

fn songs(n: usize) -> Vec<Song> {
    (0..n).map(song).collect()
}

fn loaded_view(page_size: usize, n: usize) -> SeletectPlayListView {
    let mut v = SeletectPlayListView::new(page_size);
    let g = v.begin_load();
    v.accept_load(g, Ok(songs(n)));
    v
}

#[test]
fn seven_items_page_size_five_scenario() {
    // 7 items with pages of 5 give a page bound of 10; one page forward
    // shows items 5 and 6, and a second forward move is a no-op.
    let mut v = loaded_view(5, 7);
    assert_eq!(v.max_page, Some(10));
    assert_eq!(v.offset, 0);
    assert_eq!(v.visible_songs().unwrap().len(), 5);
    v.page_forward();
    assert_eq!(v.offset, 5);
    let page = v.visible_songs().unwrap();
    assert_eq!(page.len(), 2);
    assert_eq!(page[0].title, "track 5");
    assert_eq!(page[1].title, "track 6");
    v.page_forward();
    assert_eq!(v.offset, 5);
}

#[test]
fn page_forward_then_backward_round_trips() {
    let mut v = loaded_view(5, 12);
    v.page_forward();
    assert_eq!(v.offset, 5);
    v.page_forward();
    assert_eq!(v.offset, 10);
    v.page_backward();
    assert_eq!(v.offset, 5);
    v.page_backward();
    assert_eq!(v.offset, 0);
    v.page_backward();
    assert_eq!(v.offset, 0);
}

#[test]
fn navigation_without_a_load_is_a_no_op() {
    let mut v = SeletectPlayListView::new(5);
    v.page_forward();
    v.page_backward();
    assert_eq!(v.offset, 0);
    assert!(v.max_page.is_none());
    assert!(v.visible_songs().is_none());
}

#[test]
fn empty_collection_pins_everything_to_zero() {
    let mut v = loaded_view(5, 0);
    assert_eq!(v.max_page, Some(0));
    v.page_forward();
    assert_eq!(v.offset, 0);
    v.handle_keystrokes(Key::Down);
    assert_eq!(v.selected, 0);
    assert_eq!(v.visible_songs().unwrap().len(), 0);
}

#[test]
fn cursor_clamps_to_partial_last_page() {
    // On the last page of 7 items with pages of 5 only 2 items are visible:
    // the cursor saturates at 1, not at the nominal page size.
    let mut v = loaded_view(5, 7);
    v.page_forward();
    for _ in 0..6 {
        v.handle_keystrokes(Key::Down);
        assert!(v.selected <= 1);
    }
    assert_eq!(v.selected, 1);
    for _ in 0..6 {
        v.handle_keystrokes(Key::Up);
    }
    assert_eq!(v.selected, 0);
}

#[test]
fn page_turn_resets_cursor() {
    let mut v = loaded_view(5, 12);
    v.handle_keystrokes(Key::Char('j'));
    v.handle_keystrokes(Key::Char('j'));
    assert_eq!(v.selected, 2);
    v.handle_keystrokes(Key::Right);
    assert_eq!(v.offset, 5);
    assert_eq!(v.selected, 0);
}

#[test]
fn begin_load_invalidates_at_request_time() {
    // Stale items must disappear as soon as a new id is selected, not only
    // when the new fetch lands.
    let mut v = loaded_view(5, 7);
    assert!(v.visible_songs().is_some());
    let _g = v.begin_load();
    assert!(v.visible_songs().is_none());
    assert!(v.max_page.is_none());
    assert_eq!(v.offset, 0);
    assert_eq!(v.selected, 0);
}

#[test]
fn stale_load_is_discarded() {
    // Selections A then B in quick succession, with A's fetch landing
    // after B's: the cache must keep B's items.
    let mut v = SeletectPlayListView::new(5);
    let gen_a = v.begin_load();
    let gen_b = v.begin_load();
    let items_a = vec![song(100), song(101)];
    let items_b = vec![song(200)];
    v.accept_load(gen_b, Ok(items_b));
    v.accept_load(gen_a, Ok(items_a));
    let page = v.visible_songs().expect("B's load must be visible");
    assert_eq!(page.len(), 1);
    assert_eq!(page[0].id, "s200");
}

#[test]
fn failed_load_leaves_cache_empty() {
    let mut v = SeletectPlayListView::new(5);
    let g = v.begin_load();
    v.accept_load(g, Err("connection reset".to_string()));
    assert!(v.visible_songs().is_none());
    assert!(v.max_page.is_none());
    v.page_forward();
    assert_eq!(v.offset, 0);
}

#[test]
fn failed_reload_does_not_resurrect_old_items() {
    let mut v = loaded_view(5, 7);
    let g = v.begin_load();
    v.accept_load(g, Err("timeout".to_string()));
    assert!(v.visible_songs().is_none());
}

#[test]
fn exact_page_boundary_has_no_phantom_page() {
    // 10 items with pages of 5: the last page starts at offset 5 and a
    // further forward move must not step onto an empty page.
    let mut v = loaded_view(5, 10);
    assert_eq!(v.max_page, Some(10));
    v.page_forward();
    assert_eq!(v.offset, 5);
    assert_eq!(v.visible_songs().unwrap().len(), 5);
    v.page_forward();
    assert_eq!(v.offset, 5);
}
