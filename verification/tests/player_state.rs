//! Behavior of the shared player state: status parsing, URL derivation,
//! track-change detection, the playback clock, and snapshots.

use miu_player::state::AppState;
use miu_player::state::PlaybackStatus;
use miu_player::state::Track;

fn track(id: &str) -> Track {
    Track {
        youtube_id: id.to_string(),
        title: "A title".to_string(),
        duration_ms: 60_000,
        thumbnail: None,
        requested_by: None,
        channel_title: None,
        requested_at: None,
        is_autoplay: None,
    }
}

#[test]
fn status_strings_parse_case_insensitively() {
    assert_eq!(PlaybackStatus::from_str("playing"), PlaybackStatus::Playing);
    assert_eq!(PlaybackStatus::from_str("  PLAYING "), PlaybackStatus::Playing);
    assert_eq!(PlaybackStatus::from_str("Paused"), PlaybackStatus::Paused);
    assert_eq!(PlaybackStatus::from_str("stopped"), PlaybackStatus::Stopped);
    assert_eq!(PlaybackStatus::from_str("anything else"), PlaybackStatus::Stopped);
    assert_eq!(PlaybackStatus::from_str(""), PlaybackStatus::Stopped);
}

#[test]
fn volume_is_clamped() {
    let st = AppState::new_with_volume(1500);
    assert_eq!(st.volume, 1000);
    let mut st2 = AppState::new();
    assert_eq!(st2.volume, 800);
    st2.update_volume(1200);
    assert_eq!(st2.volume, 1000);
    st2.update_volume(250);
    assert_eq!(st2.volume, 250);
}

#[test]
fn server_url_derivation() {
    let mut st = AppState::new();
    st.set_server_url(" http://h/ ".to_string());
    assert_eq!(st.server_url.as_deref(), Some("http://h"));
    assert_eq!(st.backend_url.as_deref(), Some("http://h/backend"));
    assert_eq!(st.stream_url.as_deref(), Some("http://h/backend/api/music/stream"));
    assert_eq!(st.position_url().as_deref(), Some("http://h/backend/api/music/position"));
}

#[test]
fn server_url_accepts_an_explicit_backend_mount() {
    let mut st = AppState::new();
    st.set_server_url("http://h/backend".to_string());
    assert_eq!(st.server_url.as_deref(), Some("http://h"));
    assert_eq!(st.backend_url.as_deref(), Some("http://h/backend"));
    assert_eq!(st.stream_url.as_deref(), Some("http://h/backend/api/music/stream"));
}

#[test]
fn a_blank_server_url_changes_nothing() {
    let mut st = AppState::new();
    st.set_server_url("   /// ".to_string());
    assert!(st.server_url.is_none());
    assert!(st.backend_url.is_none());
    assert!(st.stream_url.is_none());
}

#[test]
fn track_changes_are_detected_by_identity() {
    let mut st = AppState::new();
    assert!(st.update_current_track(Some(track("a"))));
    assert!(!st.update_current_track(Some(track("a"))));
    assert!(st.update_current_track(Some(track("b"))));
    assert!(st.update_current_track(None));
    // The last identity is remembered: the same track coming back after
    // a gap is not a change.
    assert!(!st.update_current_track(Some(track("b"))));
    assert!(st.update_current_track(None));
    assert!(st.update_current_track(Some(track("c"))));
}

#[test]
fn the_clock_extrapolates_only_while_playing() {
    let mut st = AppState::new();
    st.update_sync(5_000, Some(60_000), 1_000, 0);
    // Not playing: the anchor position is reported as-is.
    assert_eq!(st.computed_position(3_000), 5_000);
    st.update_player_status(PlaybackStatus::Playing);
    assert_eq!(st.computed_position(3_000), 7_000);
    // A user pause freezes the reading.
    st.set_user_paused(true);
    assert_eq!(st.computed_position(9_000), 5_000);
}

#[test]
fn the_clock_clamps_to_a_known_duration() {
    let mut st = AppState::new();
    st.update_player_status(PlaybackStatus::Playing);
    st.update_sync(59_000, Some(60_000), 0, 0);
    assert_eq!(st.computed_position(500), 59_500);
    assert_eq!(st.computed_position(5_000), 60_000);
    // An unknown (zero) duration means no upper bound.
    let mut st2 = AppState::new();
    st2.update_player_status(PlaybackStatus::Playing);
    st2.update_sync(59_000, Some(0), 0, 0);
    assert_eq!(st2.computed_position(120_000), 179_000);
}

#[test]
fn pausing_locally_freezes_the_position() {
    let mut st = AppState::new();
    st.update_player_status(PlaybackStatus::Playing);
    st.update_sync(10_000, Some(60_000), 1_000, 0);
    assert!(st.should_pause());
    st.pause_locally(4_000, 77);
    assert_eq!(st.player_status, PlaybackStatus::Paused);
    assert!(st.user_paused);
    assert_eq!(st.synced_position_ms, 13_000);
    assert_eq!(st.computed_position(99_000), 13_000);
    assert!(!st.should_pause());
}

#[test]
fn snapshots_reflect_the_state() {
    let mut st = AppState::new();
    st.set_server_url("http://h".to_string());
    st.update_current_track(Some(track("xyz")));
    st.update_queue(vec![track("n1"), track("n2")]);
    st.update_player_status(PlaybackStatus::Playing);
    st.update_sync(5_000, Some(60_000), 100, 777);
    let snap = st.snapshot(1_100);
    assert!(snap.connected);
    assert!(snap.is_playing);
    assert!(!snap.user_paused);
    assert_eq!(snap.position_ms, 6_000);
    assert_eq!(snap.duration_ms, 60_000);
    assert_eq!(snap.volume, 800);
    assert_eq!(snap.last_sync_timestamp, Some(777));
    assert_eq!(snap.queue.len(), 2);
    let tv = snap.current_track.unwrap();
    assert_eq!(tv.youtube_id, "xyz");
    assert_eq!(tv.album_art_url.as_deref(), Some("http://h/backend/api/albumart/xyz"));
    assert!(!tv.is_autoplay);
}

#[test]
fn album_art_falls_back_to_the_thumbnail() {
    let mut t = track("id1");
    t.thumbnail = Some("  http://img/x.jpg  ".to_string());
    let v = t.as_view(None);
    assert_eq!(v.album_art_url.as_deref(), Some("http://img/x.jpg"));
    let v2 = t.as_view(Some("http://h/"));
    assert_eq!(v2.album_art_url.as_deref(), Some("http://h/backend/api/albumart/id1"));
    let mut bare = track("id2");
    bare.thumbnail = Some("   ".to_string());
    assert!(bare.as_view(None).album_art_url.is_none());
    bare.thumbnail = None;
    assert!(bare.as_view(None).album_art_url.is_none());
}
