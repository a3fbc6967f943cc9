use pot::{PlaylistItem, SystemPlaylist};

fn track(id: &str, title: &str) -> PlaylistItem {
    PlaylistItem {
        id: id.to_string(),
        title: title.to_string(),
        original_url: format!("https://www.youtube.com/watch?v={}", id),
        extractor: "youtube".to_string(),
        thumbnail: None,
        duration: None,
        playlist_id: None,
        webpage_url: None,
        is_live: None,
        was_live: None,
    }
}

#[test]
fn fifo_order() {
    let mut store = SystemPlaylist::new();
    let (a, b, c) = (track("a", "A"), track("b", "B"), track("c", "C"));
    let added = store.add(1, vec![a.clone(), b.clone(), c.clone()], true);
    assert_eq!(added, 3);
    assert_eq!(store.consume(1), Some(a));
    assert_eq!(store.consume(1), Some(b));
    assert_eq!(store.consume(1), Some(c));
    assert_eq!(store.consume(1), None);
}

#[test]
fn example_scenario_single_watch_url() {
    let mut store = SystemPlaylist::new();
    let item = track("ID1", "First");
    assert_eq!(store.add(1, vec![item.clone()], true), 1);
    assert_eq!(store.consume(1), Some(item));
    assert_eq!(store.consume(1), None);
}

#[test]
fn add_url_counts_all_items() {
    let mut store = SystemPlaylist::new();
    assert_eq!(store.add(7, vec![track("a", "A")], true), 1);
    let playlist = vec![track("b", "B"), track("c", "C"), track("d", "D"), track("e", "E")];
    assert_eq!(store.add(7, playlist, true), 4);
    assert_eq!(store.consume(7).unwrap().id, "a");
    assert_eq!(store.consume(7).unwrap().id, "b");
}

#[test]
fn add_search_keeps_at_most_one() {
    let mut store = SystemPlaylist::new();
    let resolved = vec![track("x", "X"), track("y", "Y"), track("z", "Z")];
    assert_eq!(store.add(3, resolved, false), 1);
    assert_eq!(store.consume(3).unwrap().id, "x");
    assert_eq!(store.consume(3), None);
}

#[test]
fn search_add_appends_to_existing_queue() {
    let mut store = SystemPlaylist::new();
    assert_eq!(store.add(6, vec![track("a", "A")], true), 1);
    assert_eq!(store.add(6, vec![track("b", "B"), track("c", "C")], false), 1);
    assert_eq!(store.consume(6).unwrap().id, "a");
    assert_eq!(store.consume(6).unwrap().id, "b");
    assert_eq!(store.consume(6), None);
}

#[test]
fn add_search_with_no_results_adds_nothing() {
    let mut store = SystemPlaylist::new();
    assert_eq!(store.add(3, Vec::new(), false), 0);
    assert_eq!(store.consume(3), None);
    // No queue entry was created for the fruitless search.
    assert!(!store.clear(3));
}

#[test]
fn add_url_with_no_results_creates_queue() {
    let mut store = SystemPlaylist::new();
    assert_eq!(store.add(4, Vec::new(), true), 0);
    // The entry exists even though nothing was appended.
    assert!(store.clear(4));
}

#[test]
fn consume_unknown_session_is_none() {
    let mut store = SystemPlaylist::new();
    assert_eq!(store.consume(99), None);
}

#[test]
fn clear_empties_but_keeps_entry() {
    let mut store = SystemPlaylist::new();
    store.add(5, vec![track("a", "A"), track("b", "B")], true);
    assert!(store.clear(5));
    assert_eq!(store.consume(5), None);
    // The session entry persists after a clear.
    assert!(store.clear(5));
}

#[test]
fn clear_unknown_session_is_false() {
    let mut store = SystemPlaylist::new();
    assert!(!store.clear(42));
}

#[test]
fn playing_flag_roundtrip() {
    let mut store = SystemPlaylist::new();
    assert!(!store.is_playing(1));
    store.set_status(1, true);
    assert!(store.is_playing(1));
    assert!(!store.is_playing(2));
    store.set_status(1, false);
    assert!(!store.is_playing(1));
}

#[test]
fn sessions_are_independent() {
    let mut store = SystemPlaylist::new();
    store.add(1, vec![track("a", "A")], true);
    store.add(2, vec![track("b", "B")], true);
    store.set_status(2, true);
    assert_eq!(store.consume(1).unwrap().id, "a");
    assert_eq!(store.consume(2).unwrap().id, "b");
    assert!(!store.is_playing(1));
    assert!(store.is_playing(2));
}

#[test]
fn default_store_is_empty() {
    let mut store = SystemPlaylist::default();
    assert_eq!(store.consume(1), None);
    assert!(!store.is_playing(1));
}
