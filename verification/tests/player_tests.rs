use guild_core::player::{Player, PlayerError, PlayerState};
use guild_core::track::{Repeat, Track};

fn track(title: &str) -> Track {
    Track {
        url: format!("https://example.com/{}", title),
        title: title.to_string(),
        requester: 7,
        live: false,
        duration_millis: Some(180_000),
        thumbnail: None,
    }
}

fn titles(p: &Player) -> Vec<String> {
    p.queue.iter().map(|t| t.title.clone()).collect()
}

#[test]
fn new_player_is_idle() {
    let p = Player::new(1, 100);
    assert!(p.is_empty());
    assert_eq!(p.state(), PlayerState::Idle);
    assert_eq!(p.idle_since, Some(100));
    assert!(!p.paused);
    assert_eq!(p.epoch, 0);
}

#[test]
fn enqueue_on_idle_starts_playback() {
    let mut p = Player::new(1, 0);
    let summary = p.enqueue(vec![track("a"), track("b")]);
    assert!(summary.started);
    assert_eq!(summary.queue_len, 2);
    assert_eq!(p.state(), PlayerState::Playing);
    assert_eq!(p.idle_since, None);
    assert_eq!(p.now_playing().unwrap().title, "a");
    assert_eq!(p.epoch, 1);
}

#[test]
fn enqueue_on_playing_appends_without_restart() {
    let mut p = Player::new(1, 0);
    p.enqueue(vec![track("a")]);
    let epoch = p.epoch;
    let summary = p.enqueue(vec![track("b"), track("c")]);
    assert!(!summary.started);
    assert_eq!(summary.queue_len, 3);
    assert_eq!(p.epoch, epoch);
    assert_eq!(titles(&p), vec!["a", "b", "c"]);
}

#[test]
fn enqueue_nothing_on_idle_stays_idle() {
    let mut p = Player::new(1, 5);
    let summary = p.enqueue(Vec::new());
    assert!(!summary.started);
    assert_eq!(summary.queue_len, 0);
    assert_eq!(p.state(), PlayerState::Idle);
    assert_eq!(p.idle_since, Some(5));
}

#[test]
fn enqueue_honors_existing_pause() {
    let mut p = Player::new(1, 0);
    p.enqueue(vec![track("a")]);
    p.pause().unwrap();
    p.enqueue(vec![track("b")]);
    assert_eq!(p.state(), PlayerState::Paused);
}

#[test]
fn skip_on_idle_reports_nothing_playing() {
    let mut p = Player::new(1, 0);
    assert!(matches!(p.skip(10), Err(PlayerError::NothingPlaying)));
    assert_eq!(p.state(), PlayerState::Idle);
}

#[test]
fn skip_advances_to_next_track() {
    let mut p = Player::new(1, 0);
    p.enqueue(vec![track("a"), track("b")]);
    let s = p.skip(10).unwrap();
    assert_eq!(s.finished_title, "a");
    assert!(s.start_next);
    assert_eq!(titles(&p), vec!["b"]);
    assert_eq!(p.state(), PlayerState::Playing);
}

#[test]
fn skip_last_track_goes_idle() {
    let mut p = Player::new(1, 0);
    p.enqueue(vec![track("a")]);
    let s = p.skip(42).unwrap();
    assert_eq!(s.finished_title, "a");
    assert!(!s.start_next);
    assert_eq!(p.state(), PlayerState::Idle);
    assert_eq!(p.idle_since, Some(42));
    assert!(!p.paused);
}

#[test]
fn skip_under_repeat_one_restarts_track() {
    let mut p = Player::new(1, 0);
    p.enqueue(vec![track("a"), track("b"), track("c")]);
    p.set_repeat(Repeat::One);
    let epoch = p.epoch;
    let s = p.skip(10).unwrap();
    assert_eq!(s.finished_title, "a");
    assert!(s.start_next);
    // The queue, head included, is exactly what it was: the skip restarts
    // the same track instead of dropping it.
    assert_eq!(titles(&p), vec!["a", "b", "c"]);
    assert_eq!(p.now_playing().unwrap().title, "a");
    assert_eq!(p.epoch, epoch + 1);
}

#[test]
fn advance_under_repeat_all_moves_head_to_tail() {
    let mut p = Player::new(1, 0);
    p.enqueue(vec![track("a"), track("b"), track("c")]);
    p.set_repeat(Repeat::All);
    let s = p.skip(10).unwrap();
    assert_eq!(s.finished_title, "a");
    assert_eq!(titles(&p), vec!["b", "c", "a"]);
}

#[test]
fn track_end_with_current_epoch_advances() {
    let mut p = Player::new(1, 0);
    p.enqueue(vec![track("a"), track("b")]);
    let epoch = p.epoch;
    let s = p.on_track_end(epoch, 30).unwrap();
    assert_eq!(s.finished_title, "a");
    assert!(s.start_next);
    assert_eq!(titles(&p), vec!["b"]);
}

#[test]
fn stale_track_end_callback_is_ignored() {
    let mut p = Player::new(1, 0);
    p.enqueue(vec![track("a"), track("b"), track("c")]);
    let stale_epoch = p.epoch;
    p.skip(10).unwrap();
    // The natural-end callback of the stream the skip stopped fires late:
    // it must not double-advance the queue.
    assert!(p.on_track_end(stale_epoch, 11).is_none());
    assert_eq!(titles(&p), vec!["b", "c"]);
}

#[test]
fn track_end_on_idle_player_is_ignored() {
    let mut p = Player::new(1, 0);
    assert!(p.on_track_end(0, 1).is_none());
    assert_eq!(p.state(), PlayerState::Idle);
}

#[test]
fn start_failure_drops_broken_track_even_under_repeat() {
    let mut p = Player::new(1, 0);
    p.enqueue(vec![track("broken"), track("b")]);
    p.set_repeat(Repeat::All);
    let s = p.on_start_failed(10).unwrap();
    assert_eq!(s.finished_title, "broken");
    assert!(s.start_next);
    assert_eq!(titles(&p), vec!["b"]);
}

#[test]
fn start_failures_drain_an_all_broken_queue() {
    let mut p = Player::new(1, 0);
    p.enqueue(vec![track("x"), track("y")]);
    p.set_repeat(Repeat::One);
    let s1 = p.on_start_failed(10).unwrap();
    assert!(s1.start_next);
    let s2 = p.on_start_failed(11).unwrap();
    assert!(!s2.start_next);
    assert_eq!(p.state(), PlayerState::Idle);
    assert_eq!(p.idle_since, Some(11));
}

#[test]
fn pause_and_resume_flip_state() {
    let mut p = Player::new(1, 0);
    p.enqueue(vec![track("a")]);
    assert_eq!(p.pause(), Ok(()));
    assert_eq!(p.state(), PlayerState::Paused);
    assert_eq!(p.pause(), Err(PlayerError::AlreadyPaused));
    assert_eq!(p.resume(), Ok(()));
    assert_eq!(p.state(), PlayerState::Playing);
    assert_eq!(p.resume(), Err(PlayerError::AlreadyPlaying));
}

#[test]
fn pause_and_resume_need_a_playing_track() {
    let mut p = Player::new(1, 0);
    assert_eq!(p.pause(), Err(PlayerError::NothingPlaying));
    assert_eq!(p.resume(), Err(PlayerError::NothingPlaying));
}

#[test]
fn paused_player_stays_paused_across_advance() {
    let mut p = Player::new(1, 0);
    p.enqueue(vec![track("a"), track("b")]);
    p.pause().unwrap();
    p.skip(10).unwrap();
    assert_eq!(p.state(), PlayerState::Paused);
    assert_eq!(titles(&p), vec!["b"]);
}

#[test]
fn stop_clears_queue_and_goes_idle() {
    let mut p = Player::new(1, 0);
    p.enqueue(vec![track("a"), track("b"), track("c")]);
    p.pause().unwrap();
    let dropped = p.stop(99);
    assert_eq!(dropped, 3);
    assert!(p.is_empty());
    assert_eq!(p.state(), PlayerState::Idle);
    assert_eq!(p.idle_since, Some(99));
    assert!(!p.paused);
}

#[test]
fn shuffle_keeps_head_and_tracks() {
    let mut p = Player::new(1, 0);
    p.enqueue(vec![track("a"), track("b"), track("c"), track("d"), track("e")]);
    let before = titles(&p);
    let shuffled = p.shuffle();
    assert_eq!(shuffled, 4);
    let after = titles(&p);
    // The now-playing head never moves.
    assert_eq!(after[0], "a");
    assert_eq!(after.len(), before.len());
    // The upcoming tracks are preserved as a multiset.
    let mut rest_before = before[1..].to_vec();
    let mut rest_after = after[1..].to_vec();
    rest_before.sort();
    rest_after.sort();
    assert_eq!(rest_before, rest_after);
}

#[test]
fn shuffle_with_one_upcoming_track_is_a_no_op() {
    let mut p = Player::new(1, 0);
    p.enqueue(vec![track("a"), track("b")]);
    assert_eq!(p.shuffle(), 0);
    assert_eq!(titles(&p), vec!["a", "b"]);
}

#[test]
fn shuffle_on_idle_player_is_a_no_op() {
    let mut p = Player::new(1, 0);
    assert_eq!(p.shuffle(), 0);
    assert!(p.is_empty());
}

#[test]
fn remove_out_of_bounds_leaves_queue_unmodified() {
    let mut p = Player::new(1, 0);
    p.enqueue(vec![track("a"), track("b"), track("c")]);
    // The head (display index 0) is never removable, and anything at or
    // past the queue length is out of range.
    assert!(matches!(p.remove(0), Err(PlayerError::OutOfBounds)));
    assert!(matches!(p.remove(3), Err(PlayerError::OutOfBounds)));
    assert!(matches!(p.remove(8), Err(PlayerError::OutOfBounds)));
    assert_eq!(titles(&p), vec!["a", "b", "c"]);
}

#[test]
fn remove_in_bounds_takes_out_one_track() {
    let mut p = Player::new(1, 0);
    p.enqueue(vec![track("a"), track("b"), track("c")]);
    let removed = match p.remove(1) {
        Ok(t) => t,
        Err(_) => panic!("expected a removable track"),
    };
    assert_eq!(removed.title, "b");
    assert_eq!(titles(&p), vec!["a", "c"]);
    let removed = match p.remove(1) {
        Ok(t) => t,
        Err(_) => panic!("expected a removable track"),
    };
    assert_eq!(removed.title, "c");
    assert_eq!(titles(&p), vec!["a"]);
}

#[test]
fn interleavings_reach_states_their_serialization_predicts() {
    // Two users race an enqueue and a pause; the per-guild guard serializes
    // them, so the result is what one of the two orders gives.
    let mut one = Player::new(1, 0);
    one.enqueue(vec![track("a")]);
    one.pause().unwrap();
    one.enqueue(vec![track("b")]);

    let mut two = Player::new(1, 0);
    two.enqueue(vec![track("a")]);
    two.enqueue(vec![track("b")]);
    two.pause().unwrap();

    assert_eq!(titles(&one), titles(&two));
    assert_eq!(one.state(), two.state());
    assert_eq!(one.state(), PlayerState::Paused);
}
