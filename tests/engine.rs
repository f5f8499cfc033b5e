use syncwatch::events::{nanos_from_millis, LastPlayerState, State, UpdateEvent};
use syncwatch::player::PlayerState;

const MS: u64 = 1_000_000;

fn snapshot(p: &PlayerState, now: u64) -> (u64, State, String) {
    let s = p.current_state_at(now);
    (s.ts_nanos, s.state, s.media_url)
}

#[test]
fn fresh_engine_is_paused_at_zero_without_media() {
    let p = PlayerState::new();
    assert_eq!(snapshot(&p, 12345), (0, State::Paused, String::new()));
    assert_eq!(p.get_current_timestamp(), 0);
}

#[test]
fn scenario_change_play_pause_seek_play() {
    let mut p = PlayerState::new();
    p.change_media("a.mp4".to_string());
    assert_eq!(snapshot(&p, 0), (0, State::Paused, "a.mp4".to_string()));
    p.unpause_at(1_000 * MS);
    p.pause_at(3_000 * MS);
    assert_eq!(p.current_timestamp_at(3_000 * MS), 2_000 * MS);
    assert_eq!(p.current_state_at(3_000 * MS).state, State::Paused);
    p.seek_at(nanos_from_millis(500), 3_100 * MS);
    assert_eq!(p.current_timestamp_at(3_100 * MS), 500 * MS);
    p.unpause_at(4_000 * MS);
    assert_eq!(p.current_timestamp_at(4_300 * MS), 800 * MS);
    assert_eq!(p.current_state_at(4_300 * MS).state, State::Playing);
}

#[test]
fn second_pause_and_unpause_change_nothing() {
    let mut p = PlayerState::new();
    p.unpause_at(10 * MS);
    p.unpause_at(50 * MS);
    assert_eq!(p.current_timestamp_at(60 * MS), 50 * MS);
    p.pause_at(70 * MS);
    p.pause_at(200 * MS);
    assert_eq!(p.current_timestamp_at(500 * MS), 60 * MS);
}

#[test]
fn play_interval_adds_its_length_to_offset() {
    let mut p = PlayerState::new();
    p.seek_at(40 * MS, 0);
    p.unpause_at(1_000 * MS);
    p.pause_at(1_250 * MS);
    assert_eq!(p.current_timestamp_at(9_999 * MS), 290 * MS);
}

#[test]
fn seek_while_paused_stays_paused() {
    let mut p = PlayerState::new();
    p.seek_at(7 * MS, 100 * MS);
    assert_eq!(snapshot(&p, 900 * MS), (7 * MS, State::Paused, String::new()));
}

#[test]
fn seek_while_playing_counts_from_target() {
    let mut p = PlayerState::new();
    p.unpause_at(0);
    p.seek_at(5_000 * MS, 100 * MS);
    assert_eq!(p.current_timestamp_at(100 * MS), 5_000 * MS);
    assert_eq!(p.current_timestamp_at(350 * MS), 5_250 * MS);
    assert_eq!(p.current_state_at(350 * MS).state, State::Playing);
}

#[test]
fn change_media_while_playing_resets_and_pauses() {
    let mut p = PlayerState::new();
    p.change_media("a.mp4".to_string());
    p.unpause_at(0);
    p.change_media("b.mp4".to_string());
    assert_eq!(snapshot(&p, 10_000 * MS), (0, State::Paused, "b.mp4".to_string()));
}

#[test]
fn reading_before_anchor_counts_as_no_time() {
    let mut p = PlayerState::new();
    p.seek_at(3 * MS, 0);
    p.unpause_at(100 * MS);
    assert_eq!(p.current_timestamp_at(50 * MS), 3 * MS);
}

#[test]
fn position_saturates_at_largest_value() {
    let mut p = PlayerState::new();
    p.seek_at(u64::MAX - 5, 0);
    p.unpause_at(10);
    assert_eq!(p.current_timestamp_at(100), u64::MAX);
    p.pause_at(100);
    assert_eq!(p.current_timestamp_at(100), u64::MAX);
}

#[test]
fn clock_advances_while_playing() {
    let mut p = PlayerState::new();
    p.unpause();
    let mut spins: u32 = 0;
    while p.get_current_timestamp() == 0 && spins < 1_000_000 {
        spins += 1;
    }
    assert!(p.get_current_timestamp() > 0);
    p.pause();
    let held = p.get_current_timestamp();
    assert!(held > 0);
    assert_eq!(p.get_current_timestamp(), held);
    assert_eq!(p.current_state().state, State::Paused);
}

#[test]
fn seek_now_sets_position() {
    let mut p = PlayerState::new();
    p.seek(nanos_from_millis(1_500));
    assert_eq!(p.get_current_timestamp(), 1_500 * MS);
}

#[test]
fn observer_sees_only_latest_of_three_mutations() {
    let mut p = PlayerState::new();
    let mut rx = p.subscribe();
    assert!(!rx.has_changed().unwrap());
    p.change_media("a.mp4".to_string());
    p.seek_at(9 * MS, 0);
    p.change_media("c.mp4".to_string());
    assert!(rx.has_changed().unwrap());
    let seen: LastPlayerState = rx.borrow_and_update().clone();
    assert_eq!((seen.ts_nanos, seen.state, seen.media_url), (0, State::Paused, "c.mp4".to_string()));
    assert!(!rx.has_changed().unwrap());
}

#[test]
fn redundant_pause_publishes_nothing() {
    let mut p = PlayerState::new();
    let rx = p.subscribe();
    p.pause_at(5);
    assert!(!rx.has_changed().unwrap());
    p.unpause_at(5);
    assert!(rx.has_changed().unwrap());
}

#[test]
fn published_snapshot_matches_engine() {
    let mut p = PlayerState::new();
    let mut rx = p.subscribe();
    p.seek_at(2 * MS, 0);
    p.unpause_at(10 * MS);
    let seen = rx.borrow_and_update().clone();
    assert_eq!((seen.ts_nanos, seen.state), (2 * MS, State::Playing));
}

#[test]
fn wire_event_rounds_down_to_millis() {
    let s = LastPlayerState { ts_nanos: 2_999_999, state: State::Playing, media_url: "m".to_string() };
    let e = UpdateEvent::from_snapshot(&s);
    assert_eq!(e.ts_millis, 2);
    assert_eq!(e.state, State::Playing);
    assert_eq!(e.media_url, "m");
}

#[test]
fn millis_convert_to_nanos() {
    assert_eq!(nanos_from_millis(0), 0);
    assert_eq!(nanos_from_millis(500), 500_000_000);
    assert_eq!(nanos_from_millis(u32::MAX), u32::MAX as u64 * 1_000_000);
}

#[test]
fn heartbeat_value_matches_paused_engine() {
    let mut p = PlayerState::new();
    p.change_media("m.mp4".to_string());
    p.unpause_at(100 * MS);
    p.pause_at(400 * MS);
    let rx = p.subscribe();
    assert!(!rx.has_changed().unwrap());
    let latest = rx.borrow().clone();
    let engine = p.current_state_at(10_000 * MS);
    assert_eq!((latest.ts_nanos, latest.state, latest.media_url), (engine.ts_nanos, engine.state, engine.media_url));
    assert_eq!(engine.ts_nanos, 300 * MS);
}
