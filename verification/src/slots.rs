//! The five asynchronous slots of the playback tracker.
//!
//! Each slot holds at most one outstanding operation: it is idle, or an
//! operation is in flight, or the operation's outcome is ready to be
//! consumed by the next `advance` call. An in-flight operation carries the
//! request the outside driver must perform, tagged with the track
//! generation it was started for, so that the outcome of an operation that
//! was superseded by a track change is provably discarded.
use vstd::prelude::*;
use crate::error::ScrobbleError;
use crate::types::{SpotifyId, TrackMeta};

verus! {

/// The authentication slot: started once at construction; its success is
/// consumed silently and its failure halts the tracker.
#[derive(Debug)]
pub enum AuthSlot {
    Idle,
    InFlight,
    Ready(Result<(), ScrobbleError>),
}

/// The track-change acknowledgment slot: set ready by an accepted
/// track-change event and consumed by `advance`, which then starts the
/// metadata fetch for the new current track.
#[derive(Debug)]
pub enum TrackChangeSlot {
    Idle,
    Ready(Result<(), ScrobbleError>),
}

/// The metadata-fetch slot. The fetch is a composition of three
/// sequential, data-dependent resolver calls, so an in-flight fetch is in
/// one of three stages, each naming exactly what the driver must resolve
/// next and carrying what the earlier stages established: the track
/// record yields the primary artist id and the album id, the artist
/// stage yields the artist name, and the album stage completes the
/// (artist, track, album) triple. A failure at any stage — including a
/// track with no artists — becomes one ready failure; no partial
/// metadata ever leaves the slot.
#[derive(Debug)]
pub enum MetaFetchSlot {
    Idle,
    FetchTrack { generation: u64, track_id: SpotifyId },
    FetchArtist { generation: u64, artist_id: SpotifyId, track_name: String, album_id: SpotifyId },
    FetchAlbum { generation: u64, artist_name: String, track_name: String, album_id: SpotifyId },
    Ready(Result<TrackMeta, ScrobbleError>),
}

/// The now-playing notification slot: while in flight it carries the
/// metadata to announce.
#[derive(Debug)]
pub enum NowPlayingSlot {
    Idle,
    InFlight { generation: u64, meta: TrackMeta },
    Ready(Result<(), ScrobbleError>),
}

/// The scrobble submission slot. The generation tag survives into the
/// ready state: a submission that completes after its track was replaced
/// must not mark the replacement track as scrobbled.
#[derive(Debug)]
pub enum ScrobbleSlot {
    Idle,
    InFlight { generation: u64, meta: TrackMeta },
    Ready { generation: u64, outcome: Result<(), ScrobbleError> },
}

/// What one `advance` call reports: no terminal outcome yet, or the first
/// unrecoverable slot failure.
#[derive(Debug)]
pub enum AdvanceOutcome {
    Pending,
    Fatal(ScrobbleError),
}

} // verus!
