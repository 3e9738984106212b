//! Behavior of the synchronized-start coordinator: delay computation,
//! restart arbitration, the restart procedure, and state events.

use miu_player::state::AppState;
use miu_player::state::PlaybackStatus;
use miu_player::state::Track;
use miu_player::sync::RestartError;
use miu_player::sync::StateEventData;
use miu_player::sync::SyncAction;
use miu_player::sync::SyncPlayEvent;
use miu_player::sync::compute_start_delay;
use miu_player::sync::with_cache_buster;

fn track(id: &str) -> Track {
    Track {
        youtube_id: id.to_string(),
        title: format!("Track {}", id),
        duration_ms: 180_000,
        thumbnail: None,
        requested_by: None,
        channel_title: None,
        requested_at: None,
        is_autoplay: None,
    }
}

fn sync_play(id: &str, position_ms: u64, server_time_ms: u64, play_at_ms: u64) -> SyncPlayEvent {
    SyncPlayEvent {
        track_id: Some(id.to_string()),
        position_ms: Some(position_ms),
        server_time_ms: Some(server_time_ms),
        play_at_ms: Some(play_at_ms),
    }
}

#[test]
fn start_delay_formula() {
    // serverLead = 1500 - 1000; elapsed = 1050 - 1050; latency = 50.
    assert_eq!(compute_start_delay(1000, 1500, 1050, 1050), 450);
    // Time already spent since arrival shortens the delay.
    assert_eq!(compute_start_delay(1000, 1500, 1050, 1250), 250);
    // A begin-at time in the past asks for an immediate start.
    assert!(compute_start_delay(1000, 1000, 1050, 1050) < 0);
}

#[test]
fn start_delay_is_monotone_in_the_begin_at_time() {
    let mut last = compute_start_delay(1000, 0, 1050, 1100);
    for play_at in [1u64, 500, 1000, 1500, 10_000, 1_000_000] {
        let d = compute_start_delay(1000, play_at, 1050, 1100);
        assert!(d >= last);
        last = d;
    }
}

#[test]
fn scheduled_start_scenario() {
    let mut st = AppState::new();
    let ev = sync_play("abc", 10_000, 1000, 1500);
    let out = st.handle_sync_play(&ev, 1050, 1050, 500);
    // No metadata was loaded yet: a placeholder identity appears.
    assert!(out.placeholder_installed);
    assert_eq!(st.current_track.as_ref().unwrap().youtube_id, "abc");
    assert_eq!(st.current_track.as_ref().unwrap().title, "Loading track");
    // The clock is anchored at the announced position immediately.
    assert_eq!(st.synced_position_ms, 10_000);
    assert_eq!(st.anchor_ms, Some(500));
    assert_eq!(st.last_sync_wallclock_ms, Some(1050));
    // The restart fires 450 ms after receipt.
    assert_eq!(out.action, SyncAction::RestartAfter(450));
}

#[test]
fn duplicate_sync_events_cause_zero_restarts() {
    let mut st = AppState::new();
    st.update_current_track(Some(track("abc")));
    st.update_player_status(PlaybackStatus::Playing);
    let first = st.handle_sync_play(&sync_play("abc", 10_000, 1000, 1500), 1050, 1050, 500);
    assert_eq!(first.action, SyncAction::NoRestart);
    assert!(!first.placeholder_installed);
    let second = st.handle_sync_play(&sync_play("abc", 11_000, 2000, 2500), 2050, 2050, 600);
    assert_eq!(second.action, SyncAction::NoRestart);
    // The loaded track survives both events.
    assert_eq!(st.current_track.as_ref().unwrap().youtube_id, "abc");
    assert_eq!(st.player_status, PlaybackStatus::Playing);
}

#[test]
fn a_different_track_restarts_even_while_playing() {
    let mut st = AppState::new();
    st.update_current_track(Some(track("abc")));
    st.update_player_status(PlaybackStatus::Playing);
    let out = st.handle_sync_play(&sync_play("xyz", 0, 1000, 1000), 1050, 1050, 500);
    assert!(out.placeholder_installed);
    assert!(matches!(out.action, SyncAction::RestartNow));
}

#[test]
fn a_stopped_player_restarts_for_the_same_track() {
    let mut st = AppState::new();
    st.update_current_track(Some(track("abc")));
    let out = st.handle_sync_play(&sync_play("abc", 0, 1000, 1000), 1050, 1050, 500);
    assert!(!out.placeholder_installed);
    assert!(matches!(out.action, SyncAction::RestartNow));
}

#[test]
fn a_user_pause_suppresses_the_restart() {
    let mut st = AppState::new();
    st.update_current_track(Some(track("abc")));
    st.set_user_paused(true);
    let out = st.handle_sync_play(&sync_play("abc", 5_000, 1000, 1500), 1050, 1050, 500);
    assert_eq!(out.action, SyncAction::HeldPaused);
    // The position display still tracks the server's claim.
    assert_eq!(st.synced_position_ms, 5_000);
    assert_eq!(st.player_status, PlaybackStatus::Paused);
}

#[test]
fn events_without_a_track_identity_are_ignored() {
    let mut st = AppState::new();
    let none = SyncPlayEvent {
        track_id: None,
        position_ms: Some(1),
        server_time_ms: None,
        play_at_ms: None,
    };
    assert_eq!(st.handle_sync_play(&none, 10, 10, 10).action, SyncAction::Ignored);
    let empty = SyncPlayEvent {
        track_id: Some(String::new()),
        position_ms: Some(1),
        server_time_ms: None,
        play_at_ms: None,
    };
    assert_eq!(st.handle_sync_play(&empty, 10, 10, 10).action, SyncAction::Ignored);
    assert_eq!(st.synced_position_ms, 0);
    assert!(st.current_track.is_none());
}

#[test]
fn cache_buster_appends_a_timestamp() {
    assert_eq!(with_cache_buster("http://h/s", 7), "http://h/s?ts=7");
    assert_eq!(with_cache_buster("http://h/s?v=1", 1234), "http://h/s?v=1&ts=1234");
}

#[test]
fn restart_plan_and_completion() {
    let mut st = AppState::new();
    assert_eq!(st.begin_restart(99, 0).unwrap_err(), RestartError::NoTrack);
    st.update_current_track(Some(track("abc")));
    assert_eq!(st.begin_restart(99, 0).unwrap_err(), RestartError::NoStreamUrl);
    st.set_server_url("http://h".to_string());
    st.update_sync(10_000, Some(180_000), 500, 99);
    st.update_player_status(PlaybackStatus::Playing);
    let plan = st.begin_restart(4242, 1500).unwrap();
    // One second of play has passed since the anchor was set.
    assert_eq!(plan.position_ms, 11_000);
    assert_eq!(plan.duration_ms, Some(180_000));
    assert_eq!(plan.stream_url, "http://h/backend/api/music/stream?ts=4242");
    assert_eq!(st.player_status, PlaybackStatus::Playing);
    assert!(!st.user_paused);
    // The preview freezes the clock until the restart reports back.
    assert_eq!(st.anchor_ms, None);
    assert_eq!(st.computed_position(9999), 11_000);

    st.complete_restart(plan.position_ms, plan.duration_ms, 2000, 4300);
    assert_eq!(st.anchor_ms, Some(2000));
    assert_eq!(st.computed_position(3000), 12_000);
}

#[test]
fn a_failed_restart_leaves_a_clean_stopped_state() {
    let mut st = AppState::new();
    st.update_current_track(Some(track("abc")));
    st.set_server_url("http://h".to_string());
    st.update_sync(10_000, Some(180_000), 500, 99);
    let _ = st.begin_restart(4242, 1500).unwrap();
    st.fail_restart();
    assert_eq!(st.player_status, PlaybackStatus::Stopped);
    assert_eq!(st.synced_position_ms, 0);
    assert_eq!(st.track_duration_ms, 0);
    assert_eq!(st.anchor_ms, None);
    let snap = st.snapshot(9999);
    assert!(!snap.is_playing);
    assert_eq!(snap.position_ms, 0);
}

#[test]
fn state_events_adopt_status_only_while_playing() {
    let mut st = AppState::new();
    // A stopped client is not yanked into playback by a snapshot.
    let eff = st.apply_state_event(
        StateEventData {
            status: Some("playing".to_string()),
            current_track: None,
            queue: Vec::new(),
            position_ms: None,
        },
        10,
        10,
    );
    assert_eq!(st.server_status, PlaybackStatus::Playing);
    assert_eq!(st.player_status, PlaybackStatus::Stopped);
    assert!(!eff.track_changed);
    // While actually playing, the server-asserted status is adopted.
    st.update_player_status(PlaybackStatus::Playing);
    st.apply_state_event(
        StateEventData {
            status: Some("paused".to_string()),
            current_track: None,
            queue: Vec::new(),
            position_ms: None,
        },
        20,
        20,
    );
    assert_eq!(st.player_status, PlaybackStatus::Paused);
}

#[test]
fn state_events_detect_track_changes_and_autostart() {
    let mut st = AppState::new();
    st.update_player_status(PlaybackStatus::Playing);
    let eff = st.apply_state_event(
        StateEventData {
            status: Some("playing".to_string()),
            current_track: Some(track("abc")),
            queue: vec![track("next")],
            position_ms: Some(15_000),
        },
        1000,
        5000,
    );
    assert!(eff.track_changed);
    assert!(eff.should_autostart);
    assert_eq!(st.current_track.as_ref().unwrap().youtube_id, "abc");
    assert_eq!(st.queue.len(), 1);
    assert_eq!(st.synced_position_ms, 15_000);
    assert_eq!(st.track_duration_ms, 180_000);
    assert_eq!(st.anchor_ms, Some(1000));

    // The same track again is no change.
    let eff2 = st.apply_state_event(
        StateEventData {
            status: None,
            current_track: Some(track("abc")),
            queue: Vec::new(),
            position_ms: None,
        },
        2000,
        6000,
    );
    assert!(!eff2.track_changed);
    assert!(!eff2.should_autostart);

    // A disappearing track clears the clock.
    let eff3 = st.apply_state_event(
        StateEventData { status: None, current_track: None, queue: Vec::new(), position_ms: None },
        3000,
        7000,
    );
    assert!(eff3.track_changed);
    assert!(!eff3.should_autostart);
    assert!(st.current_track.is_none());
    assert_eq!(st.synced_position_ms, 0);
    assert_eq!(st.anchor_ms, None);
}

#[test]
fn sync_defaults_missing_times_to_the_arrival_time() {
    let mut st = AppState::new();
    st.update_current_track(Some(track("abc")));
    let ev = SyncPlayEvent {
        track_id: Some("abc".to_string()),
        position_ms: None,
        server_time_ms: None,
        play_at_ms: None,
    };
    // lead = 0, elapsed = 0, latency = 50: start immediately.
    let out = st.handle_sync_play(&ev, 1050, 1050, 500);
    assert!(matches!(out.action, SyncAction::RestartNow));
    assert_eq!(st.synced_position_ms, 0);
}
