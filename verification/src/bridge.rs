//! Message shapes exchanged with the external media-control surface.
//!
//! The coordinator emits [`MprisCommand`] values (delivered best-effort
//! by the unverified transport) and consumes [`MprisEvent`] values that
//! the surface's own event loop produced.  All positions and lengths
//! are in milliseconds.

use vstd::prelude::*;

verus! {

/// Outbound command: what the control surface should display.
#[derive(Clone, Debug, PartialEq)]
pub enum MprisCommand {
    SetPlayback { playing: bool, position: Option<u64> },
    SetMetadata {
        title: Option<String>,
        artist: Option<String>,
        album: Option<String>,
        length: Option<u64>,
    },
}

/// Inbound event: a transport request issued outside the application.
#[derive(Clone, Debug, PartialEq)]
pub enum MprisEvent {
    Play,
    Pause,
    Next,
    Previous,
    SeekTo(u64),
}

} // verus!
