//! Track metadata discovered asynchronously from the audio engine's
//! tag events.

use vstd::prelude::*;

verus! {

/// Title, album and artist of a track.  Each field arrives
/// independently, or not at all.
#[derive(Clone, Debug)]
pub struct TrackMetadata {
    pub title: Option<String>,
    pub album: Option<String>,
    pub artist: Option<String>,
}

impl TrackMetadata {
    /// Whether at least one of the three fields is known.
    pub open spec fn has_any(self) -> bool {
        self.title is Some || self.album is Some || self.artist is Some
    }

    /// A record with no field known.
    pub fn empty() -> (r: TrackMetadata)
        ensures
            r.title is None,
            r.album is None,
            r.artist is None,
    {
        TrackMetadata { title: None, album: None, artist: None }
    }

    /// Merges newly discovered fields into the record: a field that
    /// just arrived replaces the stored one, and a field that did not
    /// arrive leaves the stored one untouched.  This is how the engine
    /// watcher accumulates tag events without erasing earlier finds.
    pub fn absorb(
        &mut self,
        title: Option<String>,
        album: Option<String>,
        artist: Option<String>,
    )
        ensures
            final(self).title == if title is Some {
                title
            } else {
                old(self).title
            },
            final(self).album == if album is Some {
                album
            } else {
                old(self).album
            },
            final(self).artist == if artist is Some {
                artist
            } else {
                old(self).artist
            },
    {
        if title.is_some() {
            self.title = title;
        }
        if album.is_some() {
            self.album = album;
        }
        if artist.is_some() {
            self.artist = artist;
        }
    }

    /// Whether at least one field is known (executable form).
    pub fn any_known(&self) -> (b: bool)
        ensures
            b == self.has_any(),
    {
        self.title.is_some() || self.album.is_some() || self.artist.is_some()
    }
}

impl Default for TrackMetadata {
    /// The default record knows nothing.
    fn default() -> (r: TrackMetadata)
        ensures
            r.title is None,
            r.album is None,
            r.artist is None,
    {
        TrackMetadata { title: None, album: None, artist: None }
    }
}

} // verus!
