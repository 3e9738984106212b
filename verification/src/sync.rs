//! Synchronized-start coordination: consuming server scheduling events,
//! computing when this client must begin audio output, deciding whether a
//! restart is needed at all, and the restart procedure's state changes.
//!
//! All times are in milliseconds: wall-clock readings are epoch
//! milliseconds, monotonic readings anchor the playback clock.  The
//! surrounding I/O loop performs the audio and network work a decision
//! asks for and reports the outcome back through `complete_restart` or
//! `fail_restart`.

use vstd::prelude::*;
use crate::state::AppState;
use crate::state::PlaybackStatus;
use crate::state::Track;
use crate::state::status_of;
use crate::text::dec_of;
use crate::text::find_char_from;
use crate::text::lemma_find_char_contains;
use crate::text::push_decimal;
use crate::text::text_eq;

verus! {

/// Fixed estimate of one-way network latency subtracted from the start
/// delay, in milliseconds.
pub const ESTIMATED_LATENCY_MS: u64 = 50;

/// A `sync_play` scheduling event, decoded to plain values.  Times are
/// epoch milliseconds.
#[derive(Debug)]
pub struct SyncPlayEvent {
    /// Identity of the track to start; an absent or empty identity makes
    /// the event unusable.
    pub track_id: Option<String>,
    /// Target playback position, milliseconds.
    pub position_ms: Option<u64>,
    /// Server clock when the event was sent.
    pub server_time_ms: Option<u64>,
    /// Server clock instant at which playback shall begin.
    pub play_at_ms: Option<u64>,
}

/// What a `sync_play` event asks the caller to do.
#[derive(Clone, Copy, Debug, PartialEq, Eq, Structural)]
pub enum SyncAction {
    /// The event carried no usable track identity; nothing changed.
    Ignored,
    /// The user has paused locally; the clock was re-anchored but no
    /// restart happens.
    HeldPaused,
    /// The same track is already playing; duplicate events are no-ops.
    NoRestart,
    /// Restart playback immediately.
    RestartNow,
    /// Restart playback after this many milliseconds, re-validating the
    /// conditions at fire time.
    RestartAfter(u64),
}

/// Outcome of handling a `sync_play` event.
#[derive(Clone, Copy, Debug, PartialEq, Eq, Structural)]
pub struct SyncPlayOutcome {
    pub action: SyncAction,
    /// A placeholder track was installed because no metadata for the
    /// announced track was loaded yet; the caller should publish a fresh
    /// snapshot.
    pub placeholder_installed: bool,
}

/// The raw start delay: the server's lead time, less the local time
/// already spent since the event arrived, less the latency estimate.
pub open spec fn start_delay(
    server_time_ms: int,
    play_at_ms: int,
    received_ms: int,
    now_ms: int,
    latency_ms: int,
) -> int {
    (play_at_ms - server_time_ms) - (now_ms - received_ms) - latency_ms
}

/// A value clamped to the `i64` range.
pub open spec fn saturate_i64(d: int) -> int {
    if d < i64::MIN {
        i64::MIN as int
    } else if d > i64::MAX {
        i64::MAX as int
    } else {
        d
    }
}

/// Compute the start delay for a `sync_play` event, clamped to the
/// representable range.
pub fn compute_start_delay(server_time_ms: u64, play_at_ms: u64, received_ms: u64, now_ms: u64) -> (
    d: i64)
    ensures
        d as int == saturate_i64(
            start_delay(
                server_time_ms as int,
                play_at_ms as int,
                received_ms as int,
                now_ms as int,
                ESTIMATED_LATENCY_MS as int,
            ),
        ),
{
    let lead = play_at_ms as i128 - server_time_ms as i128;
    let elapsed = now_ms as i128 - received_ms as i128;
    let d = lead - elapsed - ESTIMATED_LATENCY_MS as i128;
    if d < i64::MIN as i128 {
        i64::MIN
    } else if d > i64::MAX as i128 {
        i64::MAX
    } else {
        d as i64
    }
}

/// The usable track identity of a `sync_play` event, if any.
pub open spec fn sync_play_id(ev: SyncPlayEvent) -> Option<Seq<char>> {
    match ev.track_id {
        Some(id) => if id@.len() > 0 {
            Some(id@)
        } else {
            None
        },
        None => None,
    }
}

/// The event's server-send time, defaulted to the arrival time.
pub open spec fn sync_server_time(ev: SyncPlayEvent, received_ms: u64) -> u64 {
    match ev.server_time_ms {
        Some(v) => v,
        None => received_ms,
    }
}

/// The event's begin-at time, defaulted to the arrival time.
pub open spec fn sync_play_at(ev: SyncPlayEvent, received_ms: u64) -> u64 {
    match ev.play_at_ms {
        Some(v) => v,
        None => received_ms,
    }
}

/// Whether a `sync_play` event for track `id` requires a restart: yes
/// unless exactly that track is loaded and already playing.
pub open spec fn needs_restart_for(s: AppState, id: Seq<char>) -> bool {
    match s.current_track {
        Some(cur) => cur.youtube_id@ != id || s.player_status != PlaybackStatus::Playing,
        None => true,
    }
}

/// The action a `sync_play` event produces in state `s`: unusable events
/// are ignored; a user pause suppresses any restart; a duplicate event
/// for the playing track is a no-op; otherwise the restart happens now or
/// after the computed delay.
pub open spec fn sync_play_action(
    s: AppState,
    ev: SyncPlayEvent,
    received_ms: u64,
    now_ms: u64,
) -> SyncAction {
    match sync_play_id(ev) {
        None => SyncAction::Ignored,
        Some(id) => if s.user_paused {
            SyncAction::HeldPaused
        } else if !needs_restart_for(s, id) {
            SyncAction::NoRestart
        } else {
            let d = saturate_i64(
                start_delay(
                    sync_server_time(ev, received_ms) as int,
                    sync_play_at(ev, received_ms) as int,
                    received_ms as int,
                    now_ms as int,
                    ESTIMATED_LATENCY_MS as int,
                ),
            );
            if d <= 0 {
                SyncAction::RestartNow
            } else {
                SyncAction::RestartAfter(d as u64)
            }
        },
    }
}

impl AppState {
    /// Handle a `sync_play` event that arrived at wall time
    /// `received_ms` and is being processed at wall time `wall_now_ms`
    /// and monotonic time `mono_now_ms`.
    ///
    /// The clock is re-anchored to the announced position in every case
    /// that carries a track identity, even when the user pause or a
    /// duplicate suppresses the restart, so the position display tracks
    /// the server's claim.  When no metadata for the announced track is
    /// loaded yet, a placeholder identity is installed pending the next
    /// authoritative state event.
    pub fn handle_sync_play(
        &mut self,
        ev: &SyncPlayEvent,
        received_ms: u64,
        wall_now_ms: u64,
        mono_now_ms: u64,
    ) -> (out: SyncPlayOutcome)
        ensures
            out.action == sync_play_action(*old(self), *ev, received_ms, wall_now_ms),
            final(self).player_status == old(self).player_status,
            final(self).user_paused == old(self).user_paused,
            final(self).server_status == old(self).server_status,
            final(self).volume == old(self).volume,
            final(self).queue == old(self).queue,
            final(self).server_url == old(self).server_url,
            final(self).backend_url == old(self).backend_url,
            final(self).stream_url == old(self).stream_url,
            match sync_play_id(*ev) {
                None => *final(self) == *old(self) && !out.placeholder_installed,
                Some(id) => {
                    let ready = (match old(self).current_track {
                        Some(t) => t.youtube_id@ == id,
                        None => false,
                    });
                    &&& out.placeholder_installed == !ready
                    &&& (ready ==> final(self).current_track == old(self).current_track
                        && final(self).last_track_id == old(self).last_track_id)
                    &&& (!ready ==> final(self).current_track is Some && {
                        let t = final(self).current_track->0;
                        &&& t.youtube_id@ == id
                        &&& t.title@ == "Loading track"@
                        &&& t.duration_ms == 0
                        &&& t.thumbnail is None
                        &&& t.requested_by is None
                        &&& t.channel_title is None
                        &&& t.requested_at is None
                        &&& t.is_autoplay is None
                    } && final(self).last_track_id is Some && final(self).last_track_id->0@ == id)
                    &&& final(self).synced_position_ms == (match ev.position_ms {
                        Some(p) => p,
                        None => 0u64,
                    })
                    &&& final(self).track_duration_ms == (if ready {
                        (match old(self).current_track {
                            Some(t) => t.duration_ms,
                            None => 0u64,
                        })
                    } else {
                        0u64
                    })
                    &&& final(self).anchor_ms == Some(mono_now_ms)
                    &&& final(self).last_sync_wallclock_ms == Some(wall_now_ms)
                },
            },
    {
        let track_id: String = match &ev.track_id {
            Some(id) => {
                if id.as_str().is_empty() {
                    return SyncPlayOutcome { action: SyncAction::Ignored, placeholder_installed: false };
                }
                id.clone()
            },
            None => {
                return SyncPlayOutcome { action: SyncAction::Ignored, placeholder_installed: false };
            },
        };
        let position = match ev.position_ms {
            Some(p) => p,
            None => 0,
        };
        let server_time = match ev.server_time_ms {
            Some(v) => v,
            None => received_ms,
        };
        let play_at = match ev.play_at_ms {
            Some(v) => v,
            None => received_ms,
        };
        let ready = match &self.current_track {
            Some(t) => text_eq(t.youtube_id.as_str(), track_id.as_str()),
            None => false,
        };
        if !ready {
            let placeholder = Track {
                youtube_id: track_id.clone(),
                title: "Loading track".to_owned(),
                duration_ms: 0,
                thumbnail: None,
                requested_by: None,
                channel_title: None,
                requested_at: None,
                is_autoplay: None,
            };
            let _ = self.update_current_track(Some(placeholder));
            self.clear_sync();
        }
        let duration = match &self.current_track {
            Some(t) => Some(t.duration_ms),
            None => None,
        };
        self.update_sync(position, duration, mono_now_ms, wall_now_ms);
        if self.user_paused {
            return SyncPlayOutcome {
                action: SyncAction::HeldPaused,
                placeholder_installed: !ready,
            };
        }
        let playing = self.player_status == PlaybackStatus::Playing;
        if ready && playing {
            return SyncPlayOutcome {
                action: SyncAction::NoRestart,
                placeholder_installed: !ready,
            };
        }
        let delay = compute_start_delay(server_time, play_at, received_ms, wall_now_ms);
        if delay <= 0 {
            SyncPlayOutcome { action: SyncAction::RestartNow, placeholder_installed: !ready }
        } else {
            SyncPlayOutcome {
                action: SyncAction::RestartAfter(delay as u64),
                placeholder_installed: !ready,
            }
        }
    }
}

/// An authoritative `state` event, decoded to plain values.
#[derive(Debug)]
pub struct StateEventData {
    /// Server-asserted status string, when present.
    pub status: Option<String>,
    /// The currently playing track, absent when nothing plays.
    pub current_track: Option<Track>,
    /// The upcoming queue.
    pub queue: Vec<Track>,
    /// Authoritative playback position, milliseconds, when present.
    pub position_ms: Option<u64>,
}

/// What an authoritative `state` event asks the caller to do.
#[derive(Clone, Copy, Debug, PartialEq, Eq, Structural)]
pub struct StateEffect {
    /// The track identity changed (including track appearing or
    /// disappearing); the caller should publish a fresh snapshot and may
    /// pre-warm the next track's connection.
    pub track_changed: bool,
    /// The track changed while actively playing and not user-paused: the
    /// caller must restart playback immediately.
    pub should_autostart: bool,
}

/// The player status after applying a `state` event: the server-asserted
/// status is adopted only while already playing and not user-paused.
pub open spec fn player_status_after_state_event(
    s: AppState,
    status: Option<String>,
) -> PlaybackStatus {
    match status {
        Some(st) => if !s.user_paused && s.player_status == PlaybackStatus::Playing {
            status_of(st@)
        } else {
            s.player_status
        },
        None => s.player_status,
    }
}

impl AppState {
    /// Apply an authoritative `state` event at monotonic time
    /// `mono_now_ms` and wall time `wall_now_ms`.
    ///
    /// Track identity and queue are adopted unconditionally; the player
    /// status only while already playing and not user-paused; a present
    /// position re-anchors the clock; a disappearing track clears it.
    pub fn apply_state_event(
        &mut self,
        data: StateEventData,
        mono_now_ms: u64,
        wall_now_ms: u64,
    ) -> (eff: StateEffect)
        ensures
            eff.track_changed == old(self).track_change(data.current_track),
            eff.should_autostart == (eff.track_changed && final(self).current_track is Some
                && final(self).player_status == PlaybackStatus::Playing && !old(self).user_paused),
            final(self).server_status == (match data.status {
                Some(st) => status_of(st@),
                None => old(self).server_status,
            }),
            final(self).player_status == player_status_after_state_event(*old(self), data.status),
            final(self).current_track == data.current_track,
            final(self).queue == data.queue,
            final(self).last_track_id == (match data.current_track {
                Some(t) => Some(t.youtube_id),
                None => old(self).last_track_id,
            }),
            final(self).user_paused == old(self).user_paused,
            final(self).volume == old(self).volume,
            final(self).server_url == old(self).server_url,
            final(self).backend_url == old(self).backend_url,
            final(self).stream_url == old(self).stream_url,
            ({
                let cleared = data.current_track is None && old(self).current_track is Some;
                &&& final(self).synced_position_ms == (match data.position_ms {
                    Some(p) => p,
                    None => if cleared {
                        0u64
                    } else {
                        old(self).synced_position_ms
                    },
                })
                &&& final(self).track_duration_ms == (match data.position_ms {
                    Some(_) => match data.current_track {
                        Some(t) => t.duration_ms,
                        None => if cleared {
                            0u64
                        } else {
                            old(self).track_duration_ms
                        },
                    },
                    None => if cleared {
                        0u64
                    } else {
                        old(self).track_duration_ms
                    },
                })
                &&& final(self).anchor_ms == (match data.position_ms {
                    Some(_) => Some(mono_now_ms),
                    None => if cleared {
                        None
                    } else {
                        old(self).anchor_ms
                    },
                })
                &&& final(self).last_sync_wallclock_ms == (match data.position_ms {
                    Some(_) => Some(wall_now_ms),
                    None => if cleared {
                        None
                    } else {
                        old(self).last_sync_wallclock_ms
                    },
                })
            }),
    {
        if let Some(status) = &data.status {
            let parsed = crate::state::PlaybackStatus::from_str(status.as_str());
            self.update_server_status(status.as_str());
            if !self.user_paused && self.player_status == PlaybackStatus::Playing {
                self.update_player_status(parsed);
            }
        }
        let track_changed = match data.current_track {
            Some(track) => self.update_current_track(Some(track)),
            None => {
                if self.current_track.is_some() {
                    let changed = self.update_current_track(None);
                    self.clear_sync();
                    changed
                } else {
                    false
                }
            },
        };
        self.update_queue(data.queue);
        if let Some(position) = data.position_ms {
            let duration = match &self.current_track {
                Some(t) => Some(t.duration_ms),
                None => None,
            };
            self.update_sync(position, duration, mono_now_ms, wall_now_ms);
        }
        let should_autostart = track_changed && self.current_track.is_some()
            && self.player_status == PlaybackStatus::Playing && !self.user_paused;
        StateEffect { track_changed, should_autostart }
    }
}

/// Why a restart could not even be planned.
#[derive(Clone, Copy, Debug, PartialEq, Eq, Structural)]
pub enum RestartError {
    /// No current track is loaded; an authoritative state event is
    /// missing.
    NoTrack,
    /// No stream URL is configured.
    NoStreamUrl,
}

/// Everything the caller needs to begin synchronized playback: the
/// cache-busted stream URL, the position to skip to, and the duration if
/// known.
#[derive(Debug)]
pub struct RestartPlan {
    pub stream_url: String,
    pub position_ms: u64,
    pub duration_ms: Option<u64>,
}

/// The position playback actually starts from: the server's answer to
/// the position query when it is meaningful (beyond a tenth of a
/// second), else the position the restart was planned with.
pub fn choose_start_position(server_position_ms: u64, planned_ms: u64) -> (r: u64)
    ensures
        r == (if server_position_ms > 100 {
            server_position_ms
        } else {
            planned_ms
        }),
{
    if server_position_ms > 100 {
        server_position_ms
    } else {
        planned_ms
    }
}

/// `url` with a cache-busting timestamp parameter appended.
pub fn with_cache_buster(url: &str, ts: u64) -> (r: String)
    ensures
        r@ == url@ + (if url@.contains('?') {
            "&ts="@
        } else {
            "?ts="@
        }) + dec_of(ts as int),
{
    let mut out = url.to_owned();
    let has_query = find_char_from(url, '?', 0).is_some();
    proof {
        lemma_find_char_contains(url@, '?');
        assert(url@.skip(0) =~= url@);
    }
    if has_query {
        out.append("&ts=");
    } else {
        out.append("?ts=");
    }
    push_decimal(&mut out, ts);
    out
}

impl AppState {
    /// Plan a restart at wall time `wall_now_ms` and monotonic time
    /// `mono_now_ms`: resolve the cache-busted stream URL and the
    /// position to resume at, mark the player as playing and freeze the
    /// clock preview at that position.  Fails when no track or no stream
    /// URL is configured, leaving the state unchanged.
    pub fn begin_restart(&mut self, wall_now_ms: u64, mono_now_ms: u64) -> (r: Result<
        RestartPlan,
        RestartError,
    >)
        ensures
            old(self).current_track is None ==> r == Err::<RestartPlan, RestartError>(
                RestartError::NoTrack,
            ) && *final(self) == *old(self),
            old(self).current_track is Some && old(self).stream_url is None ==> r == Err::<
                RestartPlan,
                RestartError,
            >(RestartError::NoStreamUrl) && *final(self) == *old(self),
            old(self).current_track is Some && old(self).stream_url is Some ==> r is Ok && {
                let plan = r->Ok_0;
                &&& plan.position_ms == old(self).position_at(mono_now_ms)
                &&& plan.duration_ms == (if old(self).track_duration_ms > 0 {
                    Some(old(self).track_duration_ms)
                } else {
                    None::<u64>
                })
                &&& plan.stream_url@ == old(self).stream_url->0@ + (if old(
                    self,
                ).stream_url->0@.contains('?') {
                    "&ts="@
                } else {
                    "?ts="@
                }) + dec_of(wall_now_ms as int)
                &&& *final(self) == (AppState {
                    player_status: PlaybackStatus::Playing,
                    user_paused: false,
                    synced_position_ms: plan.position_ms,
                    anchor_ms: None,
                    last_sync_wallclock_ms: None,
                    ..*old(self)
                })
            },
    {
        if self.current_track.is_none() {
            return Err(RestartError::NoTrack);
        }
        let stream_url = match &self.stream_url {
            Some(u) => u.clone(),
            None => {
                return Err(RestartError::NoStreamUrl);
            },
        };
        let position = self.computed_position(mono_now_ms);
        let duration = self.duration();
        let duration_ms = if duration > 0 {
            Some(duration)
        } else {
            None
        };
        self.update_player_status(PlaybackStatus::Playing);
        self.set_user_paused(false);
        self.prepare_sync_preview(position, duration_ms);
        let full_url = with_cache_buster(stream_url.as_str(), wall_now_ms);
        Ok(RestartPlan { stream_url: full_url, position_ms: position, duration_ms })
    }

    /// Record that the planned restart produced audio: the player is
    /// playing and the clock is re-anchored at the plan's position.
    pub fn complete_restart(
        &mut self,
        position_ms: u64,
        duration_ms: Option<u64>,
        mono_now_ms: u64,
        wall_now_ms: u64,
    )
        ensures
            *final(self) == (AppState {
                player_status: PlaybackStatus::Playing,
                user_paused: false,
                synced_position_ms: position_ms,
                track_duration_ms: match duration_ms {
                    Some(d) => d,
                    None => old(self).track_duration_ms,
                },
                anchor_ms: Some(mono_now_ms),
                last_sync_wallclock_ms: Some(wall_now_ms),
                ..*old(self)
            }),
    {
        self.update_player_status(PlaybackStatus::Playing);
        self.set_user_paused(false);
        self.update_sync(position_ms, duration_ms, mono_now_ms, wall_now_ms);
    }

    /// Record that the planned restart failed: the player is stopped and
    /// the clock cleared, so the interface reflects a clean stopped state
    /// rather than a stale playing indicator.
    pub fn fail_restart(&mut self)
        ensures
            *final(self) == (AppState {
                player_status: PlaybackStatus::Stopped,
                synced_position_ms: 0,
                track_duration_ms: 0,
                anchor_ms: None,
                last_sync_wallclock_ms: None,
                ..*old(self)
            }),
    {
        self.update_player_status(PlaybackStatus::Stopped);
        self.clear_sync();
    }
}

/// Sync delay monotonicity: for a fixed send time, arrival time,
/// processing time and latency estimate, the start delay never decreases
/// as the begin-at time grows.
pub proof fn lemma_delay_monotone(
    server_time_ms: int,
    received_ms: int,
    now_ms: int,
    latency_ms: int,
    play_at_a: int,
    play_at_b: int,
)
    requires
        play_at_a <= play_at_b,
    ensures
        start_delay(server_time_ms, play_at_a, received_ms, now_ms, latency_ms) <= start_delay(
            server_time_ms,
            play_at_b,
            received_ms,
            now_ms,
            latency_ms,
        ),
        saturate_i64(start_delay(server_time_ms, play_at_a, received_ms, now_ms, latency_ms))
            <= saturate_i64(
            start_delay(server_time_ms, play_at_b, received_ms, now_ms, latency_ms),
        ),
{
}

/// Restart idempotence: while a track is loaded and already playing with
/// no user pause, a `sync_play` event for that same track asks for no
/// restart — and since handling it leaves the loaded track, the status
/// and the pause flag unchanged, a second such event asks for none
/// either.
pub proof fn lemma_restart_idempotent(
    s1: AppState,
    s2: AppState,
    ev1: SyncPlayEvent,
    ev2: SyncPlayEvent,
    r1: u64,
    n1: u64,
    r2: u64,
    n2: u64,
    id: Seq<char>,
)
    requires
        sync_play_id(ev1) == Some(id),
        sync_play_id(ev2) == Some(id),
        s1.current_track is Some,
        s1.current_track->0.youtube_id@ == id,
        s1.player_status == PlaybackStatus::Playing,
        !s1.user_paused,
        s2.current_track is Some,
        s2.current_track->0.youtube_id@ == s1.current_track->0.youtube_id@,
        s2.player_status == s1.player_status,
        s2.user_paused == s1.user_paused,
    ensures
        sync_play_action(s1, ev1, r1, n1) == SyncAction::NoRestart,
        sync_play_action(s2, ev2, r2, n2) == SyncAction::NoRestart,
{
}

} // verus!
