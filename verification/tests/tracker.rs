use scrobbler::clock::{millis_from, millis_now};
use scrobbler::config::ScrobbleConfig;
use scrobbler::tracker::{
    handle_playback, scrobble_threshold_ms, PlaybackPayload, ScrobbleState, TrackState,
};

fn event(track_id: &str, position_ms: u64, paused: bool) -> PlaybackPayload {
    PlaybackPayload {
        track_id: track_id.to_string(),
        title: "A".to_string(),
        artist: "B".to_string(),
        album: None,
        duration_ms: 200_000,
        position_ms,
        paused,
        ts: 0,
    }
}

fn half() -> ScrobbleConfig {
    ScrobbleConfig::new()
}

#[test]
fn two_minutes_of_a_track_scrobble_it_once() {
    let cfg = half();
    let mut state = ScrobbleState::new();
    let first = state.observe(&cfg, &event("t1", 0, false), 1_000_000);
    assert!(first.scrobble.is_none());
    let announced = first.now_playing.expect("a new track is announced");
    assert_eq!(announced.track_id, "t1");
    assert!(!announced.now_playing_sent);
    let second = state.observe(&cfg, &event("t1", 120_000, false), 1_120_000);
    assert!(second.now_playing.is_none());
    let scrobbled = second.scrobble.expect("the threshold was crossed");
    assert_eq!(scrobbled.track_id, "t1");
    assert_eq!(scrobbled.listened_ms, 120_000);
    assert!(scrobbled.scrobbled);
    assert_eq!(scrobbled.started_at, 1_000_000);
    let third = state.observe(&cfg, &event("t1", 130_000, false), 1_130_000);
    assert!(third.scrobble.is_none());
    assert!(third.now_playing.is_none());
    let current = state.current.expect("the track stays");
    assert!(current.scrobbled);
    assert!(current.now_playing_sent);
    assert_eq!(current.listened_ms, 130_000);
}

#[test]
fn scrobble_waits_for_the_threshold() {
    let cfg = half();
    let mut state = ScrobbleState::new();
    state.observe(&cfg, &event("t1", 0, false), 0);
    let mut fired: Vec<u64> = Vec::new();
    let mut pos: u64 = 0;
    while pos <= 200_000 {
        let actions = state.observe(&cfg, &event("t1", pos, false), 0);
        if actions.scrobble.is_some() {
            fired.push(pos);
        }
        pos += 2_000;
    }
    assert_eq!(fired, vec![100_000]);
}

#[test]
fn another_track_starts_over() {
    let cfg = half();
    let mut state = ScrobbleState::new();
    state.observe(&cfg, &event("t1", 0, false), 5_000);
    state.observe(&cfg, &event("t1", 150_000, false), 155_000);
    assert!(state.current.as_ref().unwrap().scrobbled);
    let actions = state.observe(&cfg, &event("t2", 30_000, false), 200_000);
    assert!(actions.scrobble.is_none());
    assert_eq!(actions.now_playing.as_ref().unwrap().track_id, "t2");
    let current = state.current.as_ref().unwrap();
    assert_eq!(current.track_id, "t2");
    assert_eq!(current.listened_ms, 0);
    assert_eq!(current.last_pos_ms, 30_000);
    assert_eq!(current.started_at, 170_000);
    assert!(!current.scrobbled);
    assert!(current.now_playing_sent);
    let later = state.observe(&cfg, &event("t2", 130_000, false), 300_000);
    assert!(later.scrobble.is_some());
}

#[test]
fn a_jump_backwards_adds_nothing() {
    let cfg = half();
    let mut state = ScrobbleState::new();
    state.observe(&cfg, &event("t1", 0, false), 0);
    state.observe(&cfg, &event("t1", 40_000, false), 0);
    state.observe(&cfg, &event("t1", 10_000, false), 0);
    let current = state.current.as_ref().unwrap();
    assert_eq!(current.listened_ms, 40_000);
    assert_eq!(current.last_pos_ms, 10_000);
    state.observe(&cfg, &event("t1", 25_000, false), 0);
    assert_eq!(state.current.as_ref().unwrap().listened_ms, 55_000);
}

#[test]
fn a_paused_report_moves_the_position_only() {
    let cfg = half();
    let mut state = ScrobbleState::new();
    state.observe(&cfg, &event("t1", 0, false), 0);
    let actions = state.observe(&cfg, &event("t1", 150_000, true), 0);
    assert!(actions.scrobble.is_none());
    let current = state.current.as_ref().unwrap();
    assert_eq!(current.listened_ms, 0);
    assert_eq!(current.last_pos_ms, 150_000);
}

#[test]
fn the_same_report_twice_changes_nothing() {
    let cfg = half();
    let mut state = ScrobbleState::new();
    state.observe(&cfg, &event("t1", 0, false), 0);
    let once = state.observe(&cfg, &event("t1", 100_000, false), 0);
    let twice = state.observe(&cfg, &event("t1", 100_000, false), 0);
    assert!(once.scrobble.is_some());
    assert!(twice.scrobble.is_none());
    assert_eq!(state.current.as_ref().unwrap().listened_ms, 100_000);
}

#[test]
fn nothing_is_tracked_while_scrobbling_is_off() {
    let mut cfg = half();
    cfg.enable_scrobble = false;
    let mut state = ScrobbleState::new();
    let actions = state.observe(&cfg, &event("t1", 0, false), 0);
    assert!(actions.now_playing.is_none());
    assert!(actions.scrobble.is_none());
    assert!(state.current.is_none());
}

#[test]
fn an_event_without_title_artist_or_duration_is_ignored() {
    let cfg = half();
    let mut state = ScrobbleState::new();
    state.observe(&cfg, &event("t1", 0, false), 0);
    let mut untitled = event("t2", 10, false);
    untitled.title = String::new();
    let mut anonymous = event("t2", 10, false);
    anonymous.artist = String::new();
    let mut endless = event("t2", 10, false);
    endless.duration_ms = 0;
    assert!(!untitled.is_complete());
    assert!(!anonymous.is_complete());
    assert!(!endless.is_complete());
    assert!(event("t2", 10, false).is_complete());
    for p in [untitled, anonymous, endless] {
        let actions = state.observe(&cfg, &p, 0);
        assert!(actions.now_playing.is_none());
        assert!(actions.scrobble.is_none());
        assert_eq!(state.current.as_ref().unwrap().track_id, "t1");
    }
}

#[test]
fn no_announcement_when_announcements_are_off() {
    let mut cfg = half();
    cfg.enable_now_playing = false;
    let mut state = ScrobbleState::new();
    let actions = state.observe(&cfg, &event("t1", 0, false), 0);
    assert!(actions.now_playing.is_none());
    assert!(!state.current.as_ref().unwrap().now_playing_sent);
}

#[test]
fn the_start_of_a_track_is_not_before_the_epoch() {
    let t = TrackState::start(&event("t1", 9_000, false), 4_000);
    assert_eq!(t.started_at, 0);
    let u = TrackState::start(&event("t1", 9_000, false), 10_000);
    assert_eq!(u.started_at, 1_000);
    assert_eq!(u.album, None);
    assert_eq!(u.duration_ms, 200_000);
}

#[test]
fn the_time_listened_stops_at_the_largest_number() {
    let cfg = half();
    let mut state = ScrobbleState::new();
    state.observe(&cfg, &event("t1", 0, false), 0);
    state.observe(&cfg, &event("t1", u64::MAX, false), 0);
    state.observe(&cfg, &event("t1", 0, false), 0);
    state.observe(&cfg, &event("t1", 5, false), 0);
    assert_eq!(state.current.as_ref().unwrap().listened_ms, u64::MAX);
}

#[test]
fn threshold_is_rounded_to_the_nearest_millisecond() {
    assert_eq!(scrobble_threshold_ms(200_000, 500_000), 100_000);
    assert_eq!(scrobble_threshold_ms(3, 500_000), 2);
    assert_eq!(scrobble_threshold_ms(1, 10_000), 0);
    assert_eq!(scrobble_threshold_ms(49, 10_000), 0);
    assert_eq!(scrobble_threshold_ms(50, 10_000), 1);
    assert_eq!(scrobble_threshold_ms(180_001, 1_000_000), 180_001);
    assert_eq!(scrobble_threshold_ms(0, 500_000), 0);
    assert_eq!(scrobble_threshold_ms(u64::MAX, u32::MAX), u64::MAX);
}

#[test]
fn a_short_track_is_scrobbled_by_its_second_report() {
    let mut cfg = half();
    cfg.threshold = 10_000;
    let mut state = ScrobbleState::new();
    let mut p = event("t1", 0, false);
    p.duration_ms = 1;
    let first = state.observe(&cfg, &p, 0);
    assert!(first.scrobble.is_none());
    let second = state.observe(&cfg, &p, 0);
    assert!(second.scrobble.is_some());
}

#[test]
fn unlinked_playback_is_dropped() {
    let cfg = half();
    let mut state = ScrobbleState::new();
    let actions = handle_playback(&mut state, &cfg, false, &event("t1", 0, false));
    assert!(actions.now_playing.is_none());
    assert!(actions.scrobble.is_none());
    assert!(state.current.is_none());
}

#[test]
fn linked_playback_is_tracked_and_dated_by_the_clock() {
    let cfg = half();
    let mut state = ScrobbleState::new();
    let before = millis_now();
    let first = handle_playback(&mut state, &cfg, true, &event("t1", 0, false));
    let after = millis_now();
    let announced = first.now_playing.expect("announced");
    assert!(before <= announced.started_at && announced.started_at <= after);
    assert!(state.follows(&event("t1", 1, false)));
    assert!(!state.follows(&event("t2", 1, false)));
    let second = handle_playback(&mut state, &cfg, true, &event("t1", 120_000, false));
    let scrobbled = second.scrobble.expect("scrobbled");
    assert_eq!(scrobbled.started_at, announced.started_at);
    let third = handle_playback(&mut state, &cfg, true, &event("t1", 125_000, false));
    assert!(third.scrobble.is_none());
}

#[test]
fn a_copy_of_a_track_keeps_every_field() {
    let mut p = event("t1", 7, false);
    p.album = Some("C".to_string());
    let t = TrackState::start(&p, 100);
    let c = t.clone();
    assert_eq!(c.track_id, "t1");
    assert_eq!(c.title, "A");
    assert_eq!(c.artist, "B");
    assert_eq!(c.album, Some("C".to_string()));
    assert_eq!(c.duration_ms, 200_000);
    assert_eq!(c.started_at, 93);
    assert_eq!(c.listened_ms, 0);
    assert_eq!(c.last_pos_ms, 7);
    assert!(!c.scrobbled);
    assert!(!c.now_playing_sent);
}

#[test]
fn due_follows_the_time_listened() {
    let cfg = half();
    let mut t = TrackState::start(&event("t1", 0, false), 0);
    assert!(!t.due(&cfg));
    t.advance(&event("t1", 99_999, false));
    assert!(!t.due(&cfg));
    t.advance(&event("t1", 100_000, false));
    assert!(t.due(&cfg));
    t.scrobbled = true;
    assert!(!t.due(&cfg));
}

#[test]
fn the_timestamp_is_the_count_of_milliseconds() {
    assert_eq!(millis_from(None), 0);
    assert_eq!(millis_from(Some(0)), 0);
    assert_eq!(millis_from(Some(1_700_000_000_123)), 1_700_000_000_123);
    assert_eq!(millis_from(Some(u64::MAX as u128)), u64::MAX);
    assert_eq!(millis_from(Some(u64::MAX as u128 + 6)), 5);
}

#[test]
fn the_clock_stands_after_the_epoch() {
    let a = millis_now();
    let b = millis_now();
    assert!(a > 1_600_000_000_000);
    assert!(b >= a);
}
