//! Core logic of a synchronized HTTP audio player client: a seekable
//! byte-stream adapter over ranged HTTP requests, a playback clock, a
//! synchronized-start coordinator, and an event-stream supervisor.

pub mod events;
pub mod hyprland;
pub mod state;
pub mod stream;
pub mod sync;
pub mod text;
pub mod theme;
