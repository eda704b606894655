//! Playable tracks, as handed back by the audio source resolver.

use vstd::prelude::*;

verus! {

/// One resolved, playable track.  Immutable once resolved.
#[derive(Clone)]
pub struct Track {
    /// Location the streaming transport plays from.
    pub url: String,
    pub title: String,
    /// Id of the user who requested the track.
    pub requester: u64,
    /// Whether the source is a live stream with no defined end.
    pub live: bool,
    /// Total length in milliseconds; `None` for live streams.
    pub duration_millis: Option<u64>,
    pub thumbnail: Option<String>,
}

/// What the queue does with a track that has just finished playing.
#[derive(Clone, Copy, PartialEq, Eq, Structural, Debug)]
pub enum Repeat {
    /// The finished track is discarded.
    Off,
    /// The finished track is put back at the head and restarted.
    One,
    /// The finished track is appended at the tail.
    All,
}

} // verus!
