//! Core of a desktop media-playback coordinator.
//!
//! The crate holds the playback queue, the track-metadata record, the
//! message shapes exchanged with an external media-control surface, and
//! the coordinator state machine that reconciles transport commands,
//! engine events and external control events into one consistent
//! playback state.  Everything here is verified; the audio engine, the
//! control surface and all file access live outside and communicate
//! through plain values.

pub mod bridge;
pub mod coordinator;
pub mod meta;
pub mod queue;
pub mod text;
