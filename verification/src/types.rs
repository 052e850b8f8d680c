//! Plain data carried through the playback tracker: track identifiers,
//! resolved metadata, and the record shape handed back by a metadata
//! resolver.
use vstd::prelude::*;
use vstd::string::StringExecFns;
use crate::error::ScrobbleError;

verus! {

/// An opaque track / artist / album identifier, held as its raw numeric
/// form.
#[derive(Clone, Copy, PartialEq, Eq, Structural, Debug)]
pub struct SpotifyId {
    pub raw: u128,
}

impl SpotifyId {
    pub fn new(raw: u128) -> (id: SpotifyId)
        ensures
            id.raw == raw,
    {
        SpotifyId { raw }
    }
}

/// The resolved (artist, track, album) triple for a current track; the
/// payload of a now-playing notification and of a scrobble submission.
#[derive(Debug)]
pub struct TrackMeta {
    pub artist: String,
    pub track: String,
    pub album: String,
}

impl TrackMeta {
    pub fn new(artist: String, track: String, album: String) -> (m: TrackMeta)
        ensures
            m.artist == artist,
            m.track == track,
            m.album == album,
    {
        TrackMeta { artist, track, album }
    }
}

impl Clone for TrackMeta {
    fn clone(&self) -> (m: Self)
        ensures
            m == *self,
    {
        TrackMeta {
            artist: self.artist.clone(),
            track: self.track.clone(),
            album: self.album.clone(),
        }
    }
}

/// What a metadata resolver reports for one track: its display name, the
/// ids of its artists in order, and the id of its album.
#[derive(Debug)]
pub struct TrackRecord {
    pub name: String,
    pub artist_ids: Vec<SpotifyId>,
    pub album_id: SpotifyId,
}

/// The primary artist of a resolved track: the first entry of its artist
/// list. A track with no artists at all cannot be scrobbled, so that case
/// is reported as a metadata failure rather than a panic.
pub fn primary_artist(rec: &TrackRecord) -> (r: Result<SpotifyId, ScrobbleError>)
    ensures
        rec.artist_ids@.len() > 0 ==> r == Ok::<SpotifyId, ScrobbleError>(rec.artist_ids@[0]),
        rec.artist_ids@.len() == 0 <==> r is Err,
        rec.artist_ids@.len() == 0 ==> (r matches Err(e) && e.msg@ == "track has no artists"@),
{
    if rec.artist_ids.len() > 0 {
        Ok(rec.artist_ids[0])
    } else {
        Err(ScrobbleError::new(String::from_str("track has no artists")))
    }
}

} // verus!
