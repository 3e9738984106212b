//! Shared player state: playback status, track metadata, the playback
//! clock anchor, and the snapshot handed to the user interface.
//!
//! Positions and durations are kept in whole milliseconds; the volume is
//! kept in permille (0 ..= 1000).  Wall-clock and monotonic readings are
//! handed in by the caller so every state change is a pure function of
//! its arguments.

use vstd::prelude::*;
use crate::text::eq_nocase;
use crate::text::text_eq_nocase;
use crate::text::trim_spec;
use crate::text::trim_text;
use crate::text::trim_end_char_spec;
use crate::text::trim_end_char_text;
use crate::text::ends_with_text;

verus! {

/// Initial volume, in permille.
pub const DEFAULT_VOLUME: u32 = 800;

/// Highest representable volume, in permille.
pub const MAX_VOLUME: u32 = 1000;

/// Player status as reported by the server or held locally.
#[derive(Clone, Copy, Debug, PartialEq, Eq, Structural)]
pub enum PlaybackStatus {
    Playing,
    Paused,
    Stopped,
}

impl Default for PlaybackStatus {
    /// Stopped is both the initial and the failure-fallback status.
    fn default() -> (r: Self)
        ensures
            r == PlaybackStatus::Stopped,
    {
        PlaybackStatus::Stopped
    }
}

/// The status a status string denotes: ASCII whitespace around it is
/// ignored and the comparison is ASCII-case-insensitive; anything not
/// recognized means Stopped.
pub open spec fn status_of(s: Seq<char>) -> PlaybackStatus {
    if eq_nocase(trim_spec(s), "playing"@) {
        PlaybackStatus::Playing
    } else if eq_nocase(trim_spec(s), "paused"@) {
        PlaybackStatus::Paused
    } else {
        PlaybackStatus::Stopped
    }
}

impl PlaybackStatus {
    /// Parse a status string; unknown values fall back to Stopped.
    pub fn from_str(value: &str) -> (r: Self)
        ensures
            r == status_of(value@),
    {
        let trimmed = trim_text(value);
        if text_eq_nocase(trimmed, "playing") {
            PlaybackStatus::Playing
        } else if text_eq_nocase(trimmed, "paused") {
            PlaybackStatus::Paused
        } else {
            PlaybackStatus::Stopped
        }
    }
}

/// Who asked for a track.
#[derive(Debug)]
pub struct RequestedBy {
    pub id: String,
    pub username: String,
    pub avatar: Option<String>,
}

impl Clone for RequestedBy {
    /// A clone carries the same fields.
    fn clone(&self) -> (r: Self)
        ensures
            r == *self,
    {
        RequestedBy {
            id: self.id.clone(),
            username: self.username.clone(),
            avatar: self.avatar.clone(),
        }
    }
}

/// A track as announced by the server.
#[derive(Clone, Debug)]
pub struct Track {
    /// Opaque track identity; used to detect track changes.
    pub youtube_id: String,
    pub title: String,
    /// Track duration in milliseconds; 0 means unknown.
    pub duration_ms: u64,
    pub thumbnail: Option<String>,
    pub requested_by: Option<RequestedBy>,
    pub channel_title: Option<String>,
    pub requested_at: Option<String>,
    pub is_autoplay: Option<bool>,
}

/// A track as shown to the user interface.
#[derive(Clone, Debug)]
pub struct TrackView {
    pub youtube_id: String,
    pub title: String,
    pub duration_ms: u64,
    pub thumbnail: Option<String>,
    pub album_art_url: Option<String>,
    pub requested_by: Option<RequestedBy>,
    pub requested_at: Option<String>,
    pub is_autoplay: bool,
    pub channel_title: Option<String>,
}

/// The album-art address a view must carry: derived from the server URL
/// when one is known, otherwise the trimmed thumbnail when it is not
/// empty.
pub open spec fn album_art_matches(u: Option<String>, t: Track, base: Option<Seq<char>>) -> bool {
    match base {
        Some(b) => u is Some && u->0@ == trim_end_char_spec(b, '/') + "/backend/api/albumart/"@
            + t.youtube_id@,
        None => match t.thumbnail {
            Some(th) => if trim_spec(th@).len() > 0 {
                u is Some && u->0@ == trim_spec(th@)
            } else {
                u is None
            },
            None => u is None,
        },
    }
}

/// The view carries the track's fields unchanged, the autoplay flag
/// defaulted to false, and the album-art address derived from `base`.
pub open spec fn is_view_of(v: TrackView, t: Track, base: Option<Seq<char>>) -> bool {
    &&& v.youtube_id == t.youtube_id
    &&& v.title == t.title
    &&& v.duration_ms == t.duration_ms
    &&& v.thumbnail == t.thumbnail
    &&& v.requested_by == t.requested_by
    &&& v.requested_at == t.requested_at
    &&& v.channel_title == t.channel_title
    &&& v.is_autoplay == (match t.is_autoplay {
        Some(b) => b,
        None => false,
    })
    &&& album_art_matches(v.album_art_url, t, base)
}

impl Track {
    /// Build the user-interface view of this track, deriving the
    /// album-art address from the server URL when one is known.
    pub fn as_view(&self, server_url: Option<&str>) -> (v: TrackView)
        ensures
            is_view_of(
                v,
                *self,
                match server_url {
                    Some(s) => Some(s@),
                    None => None,
                },
            ),
    {
        let album_art_url: Option<String> = match server_url {
            Some(base) => {
                let mut u = String::new();
                u.append(trim_end_char_text(base, '/'));
                u.append("/backend/api/albumart/");
                u.append(self.youtube_id.as_str());
                Some(u)
            },
            None => match &self.thumbnail {
                Some(th) => {
                    let trimmed = trim_text(th.as_str());
                    if trimmed.unicode_len() > 0 {
                        Some(trimmed.to_owned())
                    } else {
                        None
                    }
                },
                None => None,
            },
        };
        TrackView {
            youtube_id: self.youtube_id.clone(),
            title: self.title.clone(),
            duration_ms: self.duration_ms,
            thumbnail: self.thumbnail.clone(),
            album_art_url,
            requested_by: self.requested_by.clone(),
            requested_at: self.requested_at.clone(),
            is_autoplay: match self.is_autoplay {
                Some(b) => b,
                None => false,
            },
            channel_title: self.channel_title.clone(),
        }
    }
}

/// Everything the user interface needs to render the player.
#[derive(Clone, Debug)]
pub struct PlayerSnapshot {
    pub connected: bool,
    pub server_url: Option<String>,
    pub stream_url: Option<String>,
    pub player_status: PlaybackStatus,
    pub server_status: PlaybackStatus,
    pub is_playing: bool,
    pub user_paused: bool,
    /// Extrapolated playback position, milliseconds.
    pub position_ms: u64,
    /// Track duration, milliseconds; 0 means unknown.
    pub duration_ms: u64,
    /// Volume in permille.
    pub volume: u32,
    pub current_track: Option<TrackView>,
    pub queue: Vec<TrackView>,
    /// Wall-clock time of the last authoritative position update,
    /// milliseconds since the epoch.
    pub last_sync_timestamp: Option<u64>,
}

/// The shared aggregate state of the player.
pub struct AppState {
    pub server_url: Option<String>,
    pub backend_url: Option<String>,
    pub stream_url: Option<String>,
    pub current_track: Option<Track>,
    pub queue: Vec<Track>,
    pub server_status: PlaybackStatus,
    pub player_status: PlaybackStatus,
    /// Volume in permille, at most `MAX_VOLUME`.
    pub volume: u32,
    pub user_paused: bool,
    /// Anchor position of the playback clock, milliseconds.
    pub synced_position_ms: u64,
    /// Track duration, milliseconds; 0 means unknown.
    pub track_duration_ms: u64,
    /// Monotonic reading taken when the anchor was set; None while the
    /// clock is frozen.
    pub anchor_ms: Option<u64>,
    /// Wall-clock reading taken when the anchor was set.
    pub last_sync_wallclock_ms: Option<u64>,
    /// Identity of the last track that was ever current.
    pub last_track_id: Option<String>,
}

/// A URL trimmed of surrounding whitespace and trailing slashes.
pub open spec fn cleaned_url(url: Seq<char>) -> Seq<char> {
    trim_end_char_spec(trim_spec(url), '/')
}

/// Whether the cleaned URL already names the backend mount point.
pub open spec fn has_backend_suffix(t: Seq<char>) -> bool {
    t.len() >= "/backend"@.len() && t.skip(t.len() - "/backend"@.len()) == "/backend"@
}

/// The site root derived from a cleaned URL.
pub open spec fn server_root_of(t: Seq<char>) -> Seq<char> {
    if has_backend_suffix(t) {
        let cleaned = trim_end_char_spec(t.take(t.len() - "/backend"@.len()), '/');
        if cleaned.len() == 0 {
            t
        } else {
            cleaned
        }
    } else {
        t
    }
}

/// The backend base derived from a cleaned URL.
pub open spec fn backend_base_of(t: Seq<char>) -> Seq<char> {
    if has_backend_suffix(t) {
        t
    } else {
        t + "/backend"@
    }
}

impl AppState {
    /// Volume stays within its representable range.
    pub open spec fn wf(self) -> bool {
        self.volume <= MAX_VOLUME
    }

    /// The extrapolated playback position at monotonic time `now`:
    /// the anchor position, advanced by the time elapsed since the anchor
    /// was set while actually playing, clamped to the duration when the
    /// duration is known (non-zero).
    pub open spec fn position_at(self, now: u64) -> u64 {
        let base: int = if !self.user_paused && self.player_status == PlaybackStatus::Playing
            && self.anchor_ms is Some {
            let anchor = self.anchor_ms->0;
            let elapsed: int = if now >= anchor {
                now - anchor
            } else {
                0
            };
            if self.synced_position_ms + elapsed > u64::MAX {
                u64::MAX as int
            } else {
                self.synced_position_ms + elapsed
            }
        } else {
            self.synced_position_ms as int
        };
        if self.track_duration_ms > 0 && base > self.track_duration_ms {
            self.track_duration_ms
        } else {
            base as u64
        }
    }

    /// The view of the server URL used for album-art derivation.
    pub open spec fn server_url_view(self) -> Option<Seq<char>> {
        match self.server_url {
            Some(u) => Some(u@),
            None => None,
        }
    }

    /// A fresh state with the default volume.
    pub fn new() -> (s: Self)
        ensures
            s.wf(),
            s.is_initial(DEFAULT_VOLUME),
    {
        Self::new_with_volume(DEFAULT_VOLUME)
    }

    /// The initial state for a given volume: nothing configured, nothing
    /// loaded, stopped, clock cleared.
    pub open spec fn is_initial(self, volume: u32) -> bool {
        &&& self.server_url is None
        &&& self.backend_url is None
        &&& self.stream_url is None
        &&& self.current_track is None
        &&& self.queue@.len() == 0
        &&& self.server_status == PlaybackStatus::Stopped
        &&& self.player_status == PlaybackStatus::Stopped
        &&& self.volume == volume
        &&& !self.user_paused
        &&& self.synced_position_ms == 0
        &&& self.track_duration_ms == 0
        &&& self.anchor_ms is None
        &&& self.last_sync_wallclock_ms is None
        &&& self.last_track_id is None
    }

    /// A fresh state with the given volume, clamped to the representable
    /// range.
    pub fn new_with_volume(volume: u32) -> (s: Self)
        ensures
            s.wf(),
            s.is_initial(if volume > MAX_VOLUME {
                MAX_VOLUME
            } else {
                volume
            }),
    {
        let v = if volume > MAX_VOLUME {
            MAX_VOLUME
        } else {
            volume
        };
        let s = AppState {
            server_url: None,
            backend_url: None,
            stream_url: None,
            current_track: None,
            queue: Vec::new(),
            server_status: PlaybackStatus::Stopped,
            player_status: PlaybackStatus::Stopped,
            volume: v,
            user_paused: false,
            synced_position_ms: 0,
            track_duration_ms: 0,
            anchor_ms: None,
            last_sync_wallclock_ms: None,
            last_track_id: None,
        };
        s
    }

    /// The backend base URL, if configured.
    pub fn backend_url(&self) -> (r: Option<String>)
        ensures
            r == self.backend_url,
    {
        self.backend_url.clone()
    }

    /// The stream URL, if configured.
    pub fn stream_url(&self) -> (r: Option<String>)
        ensures
            r == self.stream_url,
    {
        self.stream_url.clone()
    }

    /// The position-query URL, if the backend is configured.
    pub fn position_url(&self) -> (r: Option<String>)
        ensures
            match (r, self.backend_url) {
                (Some(u), Some(b)) => u@ == b@ + "/api/music/position"@,
                (None, None) => true,
                _ => false,
            },
    {
        match &self.backend_url {
            Some(b) => {
                let mut u = b.clone();
                u.append("/api/music/position");
                Some(u)
            },
            None => None,
        }
    }

    /// Record the server address: derive the site root, the backend base
    /// and the stream URL from it.  Blank input changes nothing.
    pub fn set_server_url(&mut self, url: String)
        ensures
            cleaned_url(url@).len() == 0 ==> *final(self) == *old(self),
            cleaned_url(url@).len() > 0 ==> {
                let t = cleaned_url(url@);
                let root = trim_end_char_spec(server_root_of(t), '/');
                let backend = trim_end_char_spec(backend_base_of(t), '/');
                &&& final(self).server_url is Some && final(self).server_url->0@ == root
                &&& final(self).backend_url is Some && final(self).backend_url->0@ == backend
                &&& final(self).stream_url is Some && final(self).stream_url->0@ == backend
                    + "/api/music/stream"@
                &&& final(self).current_track == old(self).current_track
                &&& final(self).queue == old(self).queue
                &&& final(self).server_status == old(self).server_status
                &&& final(self).player_status == old(self).player_status
                &&& final(self).volume == old(self).volume
                &&& final(self).user_paused == old(self).user_paused
                &&& final(self).synced_position_ms == old(self).synced_position_ms
                &&& final(self).track_duration_ms == old(self).track_duration_ms
                &&& final(self).anchor_ms == old(self).anchor_ms
                &&& final(self).last_sync_wallclock_ms == old(self).last_sync_wallclock_ms
                &&& final(self).last_track_id == old(self).last_track_id
            },
    {
        let t0 = trim_text(url.as_str());
        let trimmed = trim_end_char_text(t0, '/');
        let tl = trimmed.unicode_len();
        if tl == 0 {
            return ;
        }
        let suffix = "/backend";
        let sl = suffix.unicode_len();
        let root_str: String;
        let backend_str: String;
        if ends_with_text(trimmed, suffix) {
            let stripped = trimmed.substring_char(0, tl - sl);
            let cleaned = trim_end_char_text(stripped, '/');
            proof {
                assert(trimmed@.subrange(0, tl - sl) =~= trimmed@.take(
                    trimmed@.len() - "/backend"@.len(),
                ));
            }
            if cleaned.unicode_len() == 0 {
                root_str = trimmed.to_owned();
            } else {
                root_str = cleaned.to_owned();
            }
            backend_str = trimmed.to_owned();
        } else {
            root_str = trimmed.to_owned();
            let mut b = trimmed.to_owned();
            b.append(suffix);
            backend_str = b;
        }
        let root_final = trim_end_char_text(root_str.as_str(), '/').to_owned();
        let backend_final = trim_end_char_text(backend_str.as_str(), '/').to_owned();
        let mut stream = backend_final.clone();
        stream.append("/api/music/stream");
        self.stream_url = Some(stream);
        self.server_url = Some(root_final);
        self.backend_url = Some(backend_final);
    }

    /// Record the server-asserted status string.
    pub fn update_server_status(&mut self, status: &str)
        ensures
            *final(self) == (AppState { server_status: status_of(status@), ..*old(self) }),
    {
        self.server_status = PlaybackStatus::from_str(status);
    }

    /// Record the local player status.
    pub fn update_player_status(&mut self, status: PlaybackStatus)
        ensures
            *final(self) == (AppState { player_status: status, ..*old(self) }),
    {
        self.player_status = status;
    }

    /// Record a user pause or resume; pausing also marks the player
    /// paused.
    pub fn set_user_paused(&mut self, paused: bool)
        ensures
            *final(self) == (AppState {
                user_paused: paused,
                player_status: if paused {
                    PlaybackStatus::Paused
                } else {
                    old(self).player_status
                },
                ..*old(self)
            }),
    {
        self.user_paused = paused;
        if paused {
            self.player_status = PlaybackStatus::Paused;
        }
    }

    /// Record the volume, clamped to the representable range.
    pub fn update_volume(&mut self, volume: u32)
        ensures
            *final(self) == (AppState {
                volume: if volume > MAX_VOLUME {
                    MAX_VOLUME
                } else {
                    volume
                },
                ..*old(self)
            }),
            final(self).volume <= MAX_VOLUME,
    {
        self.volume = if volume > MAX_VOLUME {
            MAX_VOLUME
        } else {
            volume
        };
    }

    /// Whether replacing the current track with `next` is a track change:
    /// a different identity than the current track, or, when no track is
    /// loaded, a different identity than the last one ever seen.
    pub open spec fn track_change(self, next: Option<Track>) -> bool {
        match (self.current_track, next) {
            (Some(cur), Some(n)) => cur.youtube_id@ != n.youtube_id@,
            (None, Some(n)) => match self.last_track_id {
                Some(last) => last@ != n.youtube_id@,
                None => true,
            },
            (Some(_), None) => true,
            (None, None) => false,
        }
    }

    /// Install the announced track (or its absence) and report whether
    /// this is a track change.
    pub fn update_current_track(&mut self, track: Option<Track>) -> (changed: bool)
        ensures
            changed == old(self).track_change(track),
            *final(self) == (AppState {
                current_track: track,
                last_track_id: match track {
                    Some(t) => Some(t.youtube_id),
                    None => old(self).last_track_id,
                },
                ..*old(self)
            }),
    {
        let changed = match (&self.current_track, &track) {
            (Some(cur), Some(next)) => !crate::text::text_eq(
                cur.youtube_id.as_str(),
                next.youtube_id.as_str(),
            ),
            (None, Some(next)) => match &self.last_track_id {
                Some(last) => !crate::text::text_eq(last.as_str(), next.youtube_id.as_str()),
                None => true,
            },
            (Some(_), None) => true,
            (None, None) => false,
        };
        if let Some(ref t) = track {
            self.last_track_id = Some(t.youtube_id.clone());
        }
        self.current_track = track;
        changed
    }

    /// Replace the queue.
    pub fn update_queue(&mut self, queue: Vec<Track>)
        ensures
            *final(self) == (AppState { queue, ..*old(self) }),
    {
        self.queue = queue;
    }

    /// Anchor the playback clock at `position_ms`, remembering when the
    /// anchor was taken; a known duration replaces the clamp ceiling.
    pub fn update_sync(
        &mut self,
        position_ms: u64,
        duration_ms: Option<u64>,
        mono_now_ms: u64,
        wall_now_ms: u64,
    )
        ensures
            *final(self) == (AppState {
                synced_position_ms: position_ms,
                track_duration_ms: match duration_ms {
                    Some(d) => d,
                    None => old(self).track_duration_ms,
                },
                anchor_ms: Some(mono_now_ms),
                last_sync_wallclock_ms: Some(wall_now_ms),
                ..*old(self)
            }),
    {
        self.synced_position_ms = position_ms;
        if let Some(d) = duration_ms {
            self.track_duration_ms = d;
        }
        self.anchor_ms = Some(mono_now_ms);
        self.last_sync_wallclock_ms = Some(wall_now_ms);
    }

    /// Set the clock position without an anchor: the position freezes
    /// until the next authoritative update.
    pub fn prepare_sync_preview(&mut self, position_ms: u64, duration_ms: Option<u64>)
        ensures
            *final(self) == (AppState {
                synced_position_ms: position_ms,
                track_duration_ms: match duration_ms {
                    Some(d) => d,
                    None => old(self).track_duration_ms,
                },
                anchor_ms: None,
                last_sync_wallclock_ms: None,
                ..*old(self)
            }),
    {
        self.synced_position_ms = position_ms;
        if let Some(d) = duration_ms {
            self.track_duration_ms = d;
        }
        self.anchor_ms = None;
        self.last_sync_wallclock_ms = None;
    }

    /// Clear the clock entirely.
    pub fn clear_sync(&mut self)
        ensures
            *final(self) == (AppState {
                synced_position_ms: 0,
                track_duration_ms: 0,
                anchor_ms: None,
                last_sync_wallclock_ms: None,
                ..*old(self)
            }),
    {
        self.synced_position_ms = 0;
        self.track_duration_ms = 0;
        self.anchor_ms = None;
        self.last_sync_wallclock_ms = None;
    }

    /// The extrapolated playback position at monotonic time
    /// `mono_now_ms`.
    pub fn computed_position(&self, mono_now_ms: u64) -> (r: u64)
        ensures
            r == self.position_at(mono_now_ms),
    {
        let playing = !self.user_paused && self.player_status == PlaybackStatus::Playing;
        let base = if playing {
            match self.anchor_ms {
                Some(anchor) => self.synced_position_ms.saturating_add(
                    mono_now_ms.saturating_sub(anchor),
                ),
                None => self.synced_position_ms,
            }
        } else {
            self.synced_position_ms
        };
        if self.track_duration_ms > 0 && base > self.track_duration_ms {
            self.track_duration_ms
        } else {
            base
        }
    }

    /// The duration ceiling; 0 means unknown.
    pub fn duration(&self) -> (r: u64)
        ensures
            r == self.track_duration_ms,
    {
        self.track_duration_ms
    }

    /// Wall-clock time of the last authoritative position update.
    pub fn last_sync_timestamp(&self) -> (r: Option<u64>)
        ensures
            r == self.last_sync_wallclock_ms,
    {
        self.last_sync_wallclock_ms
    }

    /// Freeze the current position into the anchor and mark the player
    /// paused by the user; used on a local pause.
    pub fn pause_locally(&mut self, mono_now_ms: u64, wall_now_ms: u64)
        ensures
            *final(self) == (AppState {
                user_paused: true,
                player_status: PlaybackStatus::Paused,
                synced_position_ms: old(self).position_at(mono_now_ms),
                anchor_ms: Some(mono_now_ms),
                last_sync_wallclock_ms: Some(wall_now_ms),
                ..*old(self)
            }),
    {
        let position = self.computed_position(mono_now_ms);
        self.set_user_paused(true);
        self.update_player_status(PlaybackStatus::Paused);
        let duration = self.track_duration_ms;
        self.update_sync(position, Some(duration), mono_now_ms, wall_now_ms);
    }

    /// Whether a play/pause command must pause (rather than resume).
    pub fn should_pause(&self) -> (r: bool)
        ensures
            r == (!self.user_paused && self.player_status == PlaybackStatus::Playing),
    {
        !self.user_paused && self.player_status == PlaybackStatus::Playing
    }

    /// Build the snapshot handed to the user interface, with the position
    /// extrapolated to monotonic time `mono_now_ms`.
    pub fn snapshot(&self, mono_now_ms: u64) -> (snap: PlayerSnapshot)
        ensures
            snap.connected == (self.server_url is Some),
            snap.server_url == self.server_url,
            snap.stream_url == self.stream_url,
            snap.player_status == self.player_status,
            snap.server_status == self.server_status,
            snap.is_playing == (self.player_status == PlaybackStatus::Playing),
            snap.user_paused == self.user_paused,
            snap.position_ms == self.position_at(mono_now_ms),
            snap.duration_ms == self.track_duration_ms,
            snap.volume == self.volume,
            snap.last_sync_timestamp == self.last_sync_wallclock_ms,
            (snap.current_track is Some) == (self.current_track is Some),
            self.current_track is Some ==> is_view_of(
                snap.current_track->0,
                self.current_track->0,
                self.server_url_view(),
            ),
            snap.queue@.len() == self.queue@.len(),
            forall|i: int|
                0 <= i < self.queue@.len() ==> is_view_of(
                    #[trigger] snap.queue@[i],
                    self.queue@[i],
                    self.server_url_view(),
                ),
    {
        let base: Option<&str> = match &self.server_url {
            Some(u) => Some(u.as_str()),
            None => None,
        };
        let current_track = match &self.current_track {
            Some(t) => Some(t.as_view(base)),
            None => None,
        };
        let mut queue: Vec<TrackView> = Vec::new();
        let mut i: usize = 0;
        let n = self.queue.len();
        while i < n
            invariant
                i <= n,
                n == self.queue@.len(),
                queue@.len() == i,
                match base {
                    Some(b) => self.server_url is Some && b@ == self.server_url->0@,
                    None => self.server_url is None,
                },
                forall|j: int|
                    0 <= j < i ==> is_view_of(
                        #[trigger] queue@[j],
                        self.queue@[j],
                        self.server_url_view(),
                    ),
            decreases n - i,
        {
            let v = self.queue[i].as_view(base);
            queue.push(v);
            i = i + 1;
        }
        PlayerSnapshot {
            connected: self.server_url.is_some(),
            server_url: self.server_url.clone(),
            stream_url: self.stream_url.clone(),
            player_status: self.player_status,
            server_status: self.server_status,
            is_playing: self.player_status == PlaybackStatus::Playing,
            user_paused: self.user_paused,
            position_ms: self.computed_position(mono_now_ms),
            duration_ms: self.track_duration_ms,
            volume: self.volume,
            current_track,
            queue,
            last_sync_timestamp: self.last_sync_wallclock_ms,
        }
    }
}

impl Default for AppState {
    /// A fresh state with the default volume.
    fn default() -> (s: Self)
        ensures
            s.wf(),
            s.is_initial(DEFAULT_VOLUME),
    {
        Self::new()
    }
}

} // verus!
