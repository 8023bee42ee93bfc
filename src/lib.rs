//! Playback-engine core of a local audio player: tracks and playlists, the
//! play-mode state machine that navigates them, the shared playback record,
//! the arithmetic of the progress clock, and the pure steps and records of
//! the library scan.
pub mod track;
pub mod playlist;
pub mod state;
pub mod progress;
pub mod controller;
pub mod tasks;
pub mod scan;
pub mod decode;
mod rng;
mod wall_clock;
