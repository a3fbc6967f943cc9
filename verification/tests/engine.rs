use pot::pot::SkipStep;
use pot::{PlaylistItem, SystemPlaylist};

fn track(id: &str) -> PlaylistItem {
    PlaylistItem {
        id: id.to_string(),
        title: format!("Title {}", id),
        original_url: format!("https://www.youtube.com/watch?v={}", id),
        extractor: "youtube".to_string(),
        thumbnail: None,
        duration: None,
        playlist_id: None,
        webpage_url: None,
        is_live: None,
        was_live: None,
    }
}

#[test]
fn advance_hands_out_head_and_marks_playing() {
    let mut store = SystemPlaylist::new();
    store.add(1, vec![track("a"), track("b")], true);
    let next = store.advance(1);
    assert_eq!(next.unwrap().id, "a");
    assert!(store.is_playing(1));
    // Exactly one item was dropped from the queue.
    assert_eq!(store.consume(1).unwrap().id, "b");
}

#[test]
fn advance_on_empty_marks_idle() {
    let mut store = SystemPlaylist::new();
    store.set_status(1, true);
    assert_eq!(store.advance(1), None);
    assert!(!store.is_playing(1));
}

#[test]
fn consume_exhausted_then_session_reports_idle() {
    let mut store = SystemPlaylist::new();
    store.add(1, vec![track("a")], true);
    assert!(store.advance(1).is_some());
    assert!(store.is_playing(1));
    // The queue is now empty: the next engine step returns None and the
    // session must read as idle afterwards.
    assert_eq!(store.advance(1), None);
    assert!(!store.is_playing(1));
}

#[test]
fn retry_until_exhaustion() {
    let mut store = SystemPlaylist::new();
    store.add(1, vec![track("a"), track("b"), track("c")], true);

    // Acquisition fails for "a" and "b" and succeeds for "c": the driving
    // loop simply steps the engine again after each failure.
    let acquire = |item: &PlaylistItem| item.id == "c";

    let mut failed: Vec<String> = Vec::new();
    let mut now_playing: Option<PlaylistItem> = None;
    while let Some(item) = store.advance(1) {
        if acquire(&item) {
            now_playing = Some(item);
            break;
        }
        failed.push(item.id.clone());
    }

    assert_eq!(now_playing.unwrap().id, "c");
    assert_eq!(failed, vec!["a".to_string(), "b".to_string()]);
    assert!(store.is_playing(1));
    assert_eq!(store.consume(1), None);
}

#[test]
fn retry_exhausting_everything_tears_down() {
    let mut store = SystemPlaylist::new();
    store.add(1, vec![track("a"), track("b")], true);

    // Acquisition fails for every track: the loop must end with the
    // terminal path, session idle and queue empty.
    let mut attempts = 0;
    while let Some(_item) = store.advance(1) {
        attempts += 1;
    }

    assert_eq!(attempts, 2);
    assert!(!store.is_playing(1));
    assert_eq!(store.consume(1), None);
}

#[test]
fn terminal_path_twice_is_a_no_op() {
    let mut store = SystemPlaylist::new();
    store.add(1, vec![track("a")], true);
    assert!(store.advance(1).is_some());
    // Two "queue finished" triggers in a row.
    assert_eq!(store.advance(1), None);
    assert!(!store.is_playing(1));
    assert_eq!(store.advance(1), None);
    assert!(!store.is_playing(1));
}

#[test]
fn skip_drops_exactly_one_item() {
    let mut store = SystemPlaylist::new();
    store.add(1, vec![track("a"), track("b"), track("c")], true);
    assert_eq!(store.advance(1).unwrap().id, "a");

    match store.song_skip_step(1) {
        SkipStep::Skipped(item) => assert_eq!(item.id, "b"),
        other => panic!("expected a skip, got {:?}", other),
    }
    assert!(store.is_playing(1));
    // Only "b" was dropped by the skip; "c" is still queued.
    assert_eq!(store.consume(1).unwrap().id, "c");
}

#[test]
fn skip_on_exhausted_queue_ends_session() {
    let mut store = SystemPlaylist::new();
    store.add(1, vec![track("a")], true);
    assert_eq!(store.advance(1).unwrap().id, "a");
    assert_eq!(store.song_skip_step(1), SkipStep::QueueEnded);
    assert!(!store.is_playing(1));
}

#[test]
fn skip_when_idle_does_nothing() {
    let mut store = SystemPlaylist::new();
    store.add(1, vec![track("a")], true);
    assert_eq!(store.song_skip_step(1), SkipStep::NothingToPlay);
    // The queue was not touched.
    assert_eq!(store.consume(1).unwrap().id, "a");
}
