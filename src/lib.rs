//! Playback engine of a desktop music player.
//!
//! The engine owns the song list, the playback position and the loop flag.
//! It never touches the audio device itself: every operation returns the
//! sink commands to perform and the status events to report, and the caller
//! hands back what it observed of the sink (whether it is paused, how many
//! tracks it still holds). The meaning of the sink commands is modelled in
//! [`sink`], and the laws of the engine are proved in [`laws`].

pub mod protocol;
pub mod sink;
pub mod shuffle;
pub mod engine;
pub mod laws;
pub mod view;
