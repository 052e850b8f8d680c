//! The playback tracker: current-track state, the scrobble eligibility
//! rule, and the fixed-priority progress step that drives the five
//! asynchronous slots.
//!
//! Every state change of the tracker is pinned down by a spec-level
//! transition function (`update_spec`, `advance_spec`, and the per-slot
//! completion functions), so the laws about scrobbling behaviour are
//! proved once about those functions and hold of every execution.
use vstd::prelude::*;
use crate::error::ScrobbleError;
use crate::slots::{AdvanceOutcome, AuthSlot, MetaFetchSlot, NowPlayingSlot, ScrobbleSlot,
    TrackChangeSlot};
use crate::types::{primary_artist, SpotifyId, TrackMeta, TrackRecord};

verus! {

/// How long a track must have played, in milliseconds, before it
/// qualifies for a scrobble: at least this much must have elapsed.
pub const SCROBBLE_THRESHOLD_MS: u64 = 20000;

/// The immutable credentials the tracker is constructed with: the API
/// client pair and the user account pair.
#[derive(Clone, Debug)]
pub struct ScrobblerConfig {
    pub api_key: String,
    pub api_secret: String,
    pub username: String,
    pub password: String,
}

/// The playback tracker. It owns the current-track state and the five
/// asynchronous slots; the outside driver owns the backend client and the
/// resolver, performs the in-flight calls the slots describe, and reports
/// their outcomes back through the `complete_*` methods.
///
/// `generation` counts accepted track changes: each current track carries
/// the generation it was created under, and so does every slot operation
/// started on its behalf, so a result that arrives after its track was
/// replaced is discarded instead of being applied to the wrong track.
#[derive(Debug)]
pub struct Scrobbler {
    pub config: ScrobblerConfig,
    pub generation: u64,
    pub current_track_id: Option<SpotifyId>,
    pub current_track_start: Option<u64>,
    pub current_track_meta: Option<TrackMeta>,
    pub current_track_scrobbled: bool,
    pub auth_slot: AuthSlot,
    pub new_track_slot: TrackChangeSlot,
    pub meta_fetch_slot: MetaFetchSlot,
    pub now_playing_slot: NowPlayingSlot,
    pub scrobble_slot: ScrobbleSlot,
}

/// The scrobble slot never runs ahead of the track generation, and an
/// operation started for the current track was started while its
/// metadata was known.
pub open spec fn scrobble_slot_ok(s: Scrobbler) -> bool {
    match s.scrobble_slot {
        ScrobbleSlot::Idle => true,
        ScrobbleSlot::InFlight { generation, .. } => {
            &&& generation <= s.generation
            &&& (generation == s.generation ==> s.current_track_meta is Some)
        },
        ScrobbleSlot::Ready { generation, .. } => {
            &&& generation <= s.generation
            &&& (generation == s.generation ==> s.current_track_meta is Some)
        },
    }
}

/// Well-formedness of the tracker state: a current track has a start
/// time and vice versa, a track marked scrobbled has its metadata set,
/// and the scrobble slot is consistent with the track generation.
/// Construction establishes this and every state change preserves it.
pub open spec fn wf(s: Scrobbler) -> bool {
    &&& (s.current_track_id is Some <==> s.current_track_start is Some)
    &&& (s.current_track_scrobbled ==> s.current_track_meta is Some)
    &&& scrobble_slot_ok(s)
}

/// The eligibility rule: a current track qualifies for a scrobble iff it
/// has not been scrobbled yet, no submission is in flight or waiting, and
/// it has been playing for at least the threshold.
pub open spec fn can_scrobble_spec(s: Scrobbler, now_ms: u64) -> bool {
    &&& !s.current_track_scrobbled
    &&& s.scrobble_slot is Idle
    &&& match s.current_track_start {
        Some(start) => now_ms - start >= SCROBBLE_THRESHOLD_MS,
        None => false,
    }
}

/// A track-change event is accepted when it is forced or names a track
/// other than the current one (in particular, whenever no track is
/// current yet).
pub open spec fn accepts_change(s: Scrobbler, track_id: SpotifyId, force_new_track: bool) -> bool {
    force_new_track || s.current_track_id != Some(track_id)
}

/// Starting a scrobble submission: with metadata present the submission
/// for the current generation goes in flight; without it there is
/// nothing to submit and the slot is left idle.
pub open spec fn start_scrobble_spec(s: Scrobbler) -> Scrobbler {
    match s.current_track_meta {
        Some(meta) => (Scrobbler {
            scrobble_slot: ScrobbleSlot::InFlight { generation: s.generation, meta },
            ..s
        }),
        None => (Scrobbler { scrobble_slot: ScrobbleSlot::Idle, ..s }),
    }
}

/// Replacing the current track: a fresh generation with no metadata, not
/// yet scrobbled, started now, and the track-change slot set ready so the
/// next `advance` starts the metadata fetch.
pub open spec fn set_new_track_spec(s: Scrobbler, track_id: SpotifyId, now_ms: u64) -> Scrobbler {
    Scrobbler {
        generation: (s.generation + 1) as u64,
        current_track_id: Some(track_id),
        current_track_start: Some(now_ms),
        current_track_meta: None,
        current_track_scrobbled: false,
        new_track_slot: TrackChangeSlot::Ready(Ok(())),
        ..s
    }
}

/// A track-change event: ignored unless accepted; an accepted event first
/// starts a scrobble for the outgoing track if it is eligible, then
/// replaces it.
pub open spec fn update_spec(
    s: Scrobbler,
    track_id: SpotifyId,
    force_new_track: bool,
    now_ms: u64,
) -> Scrobbler {
    if !accepts_change(s, track_id, force_new_track) {
        s
    } else {
        let s1 = if can_scrobble_spec(s, now_ms) {
            start_scrobble_spec(s)
        } else {
            s
        };
        set_new_track_spec(s1, track_id, now_ms)
    }
}

/// Step 1 of `advance`: a successful authentication is consumed.
pub open spec fn step_auth(s: Scrobbler) -> Scrobbler {
    match s.auth_slot {
        AuthSlot::Ready(Ok(_)) => (Scrobbler { auth_slot: AuthSlot::Idle, ..s }),
        _ => s,
    }
}

/// Step 2 of `advance`: the eligibility rule is applied proactively to
/// the current track.
pub open spec fn step_eligibility(s: Scrobbler, now_ms: u64) -> Scrobbler {
    if can_scrobble_spec(s, now_ms) {
        start_scrobble_spec(s)
    } else {
        s
    }
}

/// Step 3 of `advance`: a completed scrobble submission is consumed; it
/// marks the current track scrobbled only if the submission was started
/// for this very track generation.
pub open spec fn step_scrobble(s: Scrobbler) -> Scrobbler {
    match s.scrobble_slot {
        ScrobbleSlot::Ready { generation, outcome: Ok(_) } => (Scrobbler {
            scrobble_slot: ScrobbleSlot::Idle,
            current_track_scrobbled: if generation == s.generation {
                true
            } else {
                s.current_track_scrobbled
            },
            ..s
        }),
        _ => s,
    }
}

/// Step 4 of `advance`: an acknowledged track change re-arms the
/// scrobbled flag and starts the metadata fetch for the current track.
pub open spec fn step_new_track(s: Scrobbler) -> Scrobbler {
    match s.new_track_slot {
        TrackChangeSlot::Ready(Ok(_)) => {
            let cleared = Scrobbler {
                new_track_slot: TrackChangeSlot::Idle,
                current_track_scrobbled: false,
                ..s
            };
            match s.current_track_id {
                Some(track_id) => (Scrobbler {
                    meta_fetch_slot: MetaFetchSlot::FetchTrack {
                        generation: s.generation,
                        track_id,
                    },
                    ..cleared
                }),
                None => cleared,
            }
        },
        _ => s,
    }
}

/// Step 5 of `advance`: resolved metadata is stored for the current track
/// and a now-playing notification goes in flight with it.
pub open spec fn step_meta(s: Scrobbler) -> Scrobbler {
    match s.meta_fetch_slot {
        MetaFetchSlot::Ready(Ok(meta)) => (Scrobbler {
            meta_fetch_slot: MetaFetchSlot::Idle,
            current_track_meta: Some(meta),
            now_playing_slot: NowPlayingSlot::InFlight { generation: s.generation, meta },
            ..s
        }),
        _ => s,
    }
}

/// Step 6 of `advance`: a delivered now-playing notification is consumed.
pub open spec fn step_now_playing(s: Scrobbler) -> Scrobbler {
    match s.now_playing_slot {
        NowPlayingSlot::Ready(Ok(_)) => (Scrobbler {
            now_playing_slot: NowPlayingSlot::Idle,
            ..s
        }),
        _ => s,
    }
}

/// One whole `advance` call: the six steps in fixed priority order, where
/// the first slot found holding a failure stops the call with that error
/// and leaves the state as the earlier steps left it. The errored slot is
/// not cleared, so every later call reports the same fatal outcome
/// without progressing the remaining slots.
pub open spec fn advance_spec(s: Scrobbler, now_ms: u64) -> (Scrobbler, AdvanceOutcome) {
    match s.auth_slot {
        AuthSlot::Ready(Err(e)) => (s, AdvanceOutcome::Fatal(e)),
        _ => {
            let s1 = step_auth(s);
            let s2 = step_eligibility(s1, now_ms);
            match s2.scrobble_slot {
                ScrobbleSlot::Ready { generation: _, outcome: Err(e) } => (
                    s2,
                    AdvanceOutcome::Fatal(e),
                ),
                _ => {
                    let s3 = step_scrobble(s2);
                    match s3.new_track_slot {
                        TrackChangeSlot::Ready(Err(e)) => (s3, AdvanceOutcome::Fatal(e)),
                        _ => {
                            let s4 = step_new_track(s3);
                            match s4.meta_fetch_slot {
                                MetaFetchSlot::Ready(Err(e)) => (s4, AdvanceOutcome::Fatal(e)),
                                _ => {
                                    let s5 = step_meta(s4);
                                    match s5.now_playing_slot {
                                        NowPlayingSlot::Ready(Err(e)) => (
                                            s5,
                                            AdvanceOutcome::Fatal(e),
                                        ),
                                        _ => (step_now_playing(s5), AdvanceOutcome::Pending),
                                    }
                                },
                            }
                        },
                    }
                },
            }
        },
    }
}

/// Recording the authentication outcome: applied only while the
/// authentication is actually outstanding.
pub open spec fn complete_auth_spec(s: Scrobbler, outcome: Result<(), ScrobbleError>) -> Scrobbler {
    if s.auth_slot is InFlight {
        Scrobbler { auth_slot: AuthSlot::Ready(outcome), ..s }
    } else {
        s
    }
}

/// Whether a track-resolution outcome for `generation` lands: the fetch
/// must still be in its first stage for that very generation.
pub open spec fn track_resolve_applies(s: Scrobbler, generation: u64) -> bool {
    match s.meta_fetch_slot {
        MetaFetchSlot::FetchTrack { generation: g, .. } => g == generation,
        _ => false,
    }
}

/// Whether an artist-resolution outcome for `generation` lands.
pub open spec fn artist_resolve_applies(s: Scrobbler, generation: u64) -> bool {
    match s.meta_fetch_slot {
        MetaFetchSlot::FetchArtist { generation: g, .. } => g == generation,
        _ => false,
    }
}

/// Whether an album-resolution outcome for `generation` lands.
pub open spec fn album_resolve_applies(s: Scrobbler, generation: u64) -> bool {
    match s.meta_fetch_slot {
        MetaFetchSlot::FetchAlbum { generation: g, .. } => g == generation,
        _ => false,
    }
}

/// Recording a now-playing outcome: applied only to the notification
/// still in flight for the named generation; a stale outcome is dropped.
pub open spec fn complete_now_playing_spec(
    s: Scrobbler,
    generation: u64,
    outcome: Result<(), ScrobbleError>,
) -> Scrobbler {
    match s.now_playing_slot {
        NowPlayingSlot::InFlight { generation: g, .. } => if g == generation {
            Scrobbler { now_playing_slot: NowPlayingSlot::Ready(outcome), ..s }
        } else {
            s
        },
        _ => s,
    }
}

/// Recording a scrobble-submission outcome: applied only to the
/// submission still in flight for the named generation; the ready state
/// keeps the generation tag so `advance` can tell a stale success apart.
pub open spec fn complete_scrobble_spec(
    s: Scrobbler,
    generation: u64,
    outcome: Result<(), ScrobbleError>,
) -> Scrobbler {
    match s.scrobble_slot {
        ScrobbleSlot::InFlight { generation: g, .. } => if g == generation {
            Scrobbler { scrobble_slot: ScrobbleSlot::Ready { generation: g, outcome }, ..s }
        } else {
            s
        },
        _ => s,
    }
}

/// The error policy, in one place: every slot failure is unrecoverable
/// and halts the whole tracker. Softening this into per-slot recovery
/// would be a change to this one function.
fn fatal_outcome(e: &ScrobbleError) -> (r: AdvanceOutcome)
    ensures
        r == AdvanceOutcome::Fatal(*e),
{
    AdvanceOutcome::Fatal(e.clone())
}

impl Scrobbler {
    /// Builds a tracker with no current track and every slot idle, then
    /// immediately starts the authentication.
    pub fn new(config: ScrobblerConfig) -> (s: Scrobbler)
        ensures
            s.config == config,
            s.generation == 0,
            s.current_track_id is None,
            s.current_track_start is None,
            s.current_track_meta is None,
            !s.current_track_scrobbled,
            s.auth_slot is InFlight,
            s.new_track_slot is Idle,
            s.meta_fetch_slot is Idle,
            s.now_playing_slot is Idle,
            s.scrobble_slot is Idle,
            wf(s),
    {
        let mut s = Scrobbler {
            config,
            generation: 0,
            current_track_id: None,
            current_track_start: None,
            current_track_meta: None,
            current_track_scrobbled: false,
            auth_slot: AuthSlot::Idle,
            new_track_slot: TrackChangeSlot::Idle,
            meta_fetch_slot: MetaFetchSlot::Idle,
            now_playing_slot: NowPlayingSlot::Idle,
            scrobble_slot: ScrobbleSlot::Idle,
        };
        s.start_auth();
        s
    }

    /// Puts the authentication in flight; the outside driver performs the
    /// backend call and reports back through `complete_auth`.
    pub fn start_auth(&mut self)
        ensures
            *final(self) == (Scrobbler { auth_slot: AuthSlot::InFlight, ..*old(self) }),
    {
        self.auth_slot = AuthSlot::InFlight;
    }

    /// The eligibility rule, evaluated against the clock reading the
    /// driver supplies.
    pub fn can_scrobble_track(&self, now_ms: u64) -> (b: bool)
        ensures
            b == can_scrobble_spec(*self, now_ms),
    {
        if self.current_track_scrobbled {
            return false;
        }
        match &self.scrobble_slot {
            ScrobbleSlot::Idle => {},
            _ => {
                return false;
            },
        }
        match self.current_track_start {
            Some(start) => start <= now_ms && now_ms - start >= SCROBBLE_THRESHOLD_MS,
            None => false,
        }
    }

    /// Puts a scrobble submission for the given metadata in flight under
    /// the current generation.
    pub fn send_scrobble(&mut self, scrobble: &TrackMeta)
        ensures
            *final(self) == (Scrobbler {
                scrobble_slot: ScrobbleSlot::InFlight {
                    generation: old(self).generation,
                    meta: *scrobble,
                },
                ..*old(self)
            }),
    {
        self.scrobble_slot = ScrobbleSlot::InFlight {
            generation: self.generation,
            meta: scrobble.clone(),
        };
    }

    /// Puts a now-playing notification for the given metadata in flight
    /// under the current generation.
    pub fn send_now_playing(&mut self, track: &TrackMeta)
        ensures
            *final(self) == (Scrobbler {
                now_playing_slot: NowPlayingSlot::InFlight {
                    generation: old(self).generation,
                    meta: *track,
                },
                ..*old(self)
            }),
    {
        self.now_playing_slot = NowPlayingSlot::InFlight {
            generation: self.generation,
            meta: track.clone(),
        };
    }

    /// Puts the metadata fetch for the given track in flight under the
    /// current generation.
    pub fn get_track_meta(&mut self, track_id: SpotifyId)
        ensures
            *final(self) == (Scrobbler {
                meta_fetch_slot: MetaFetchSlot::FetchTrack {
                    generation: old(self).generation,
                    track_id,
                },
                ..*old(self)
            }),
    {
        self.meta_fetch_slot = MetaFetchSlot::FetchTrack {
            generation: self.generation,
            track_id,
        };
    }

    /// Starts a scrobble submission for the current track if its metadata
    /// is available; without metadata there is nothing to submit.
    pub fn start_scrobble(&mut self)
        ensures
            *final(self) == start_scrobble_spec(*old(self)),
            wf(*old(self)) ==> wf(*final(self)),
    {
        let meta = match &self.current_track_meta {
            Some(meta) => Some(meta.clone()),
            None => None,
        };
        match meta {
            Some(m) => {
                self.send_scrobble(&m);
            },
            None => {
                self.scrobble_slot = ScrobbleSlot::Idle;
            },
        }
    }

    /// Replaces the current track, advancing the generation and setting
    /// the track-change slot ready.
    pub fn set_new_track(&mut self, track_id: SpotifyId, now_ms: u64)
        requires
            old(self).generation < u64::MAX,
        ensures
            *final(self) == set_new_track_spec(*old(self), track_id, now_ms),
            wf(*old(self)) ==> wf(*final(self)),
    {
        self.generation = self.generation + 1;
        self.current_track_id = Some(track_id);
        self.current_track_start = Some(now_ms);
        self.current_track_meta = None;
        self.current_track_scrobbled = false;
        self.new_track_slot = TrackChangeSlot::Ready(Ok(()));
    }

    /// A track-change event from the host playback engine. An event for
    /// the track that is already current is a no-op unless forced; an
    /// accepted event scrobbles the outgoing track first if it is
    /// eligible, then replaces it.
    pub fn update_current_track(&mut self, track_id: SpotifyId, force_new_track: bool, now_ms: u64)
        requires
            accepts_change(*old(self), track_id, force_new_track) ==> old(
                self,
            ).generation < u64::MAX,
        ensures
            *final(self) == update_spec(*old(self), track_id, force_new_track, now_ms),
            wf(*old(self)) ==> wf(*final(self)),
    {
        if !force_new_track {
            let mut new_track_detected = false;
            match self.current_track_id {
                None => {
                    new_track_detected = true;
                },
                Some(id) => {
                    if id != track_id {
                        new_track_detected = true;
                    }
                },
            }
            if !new_track_detected {
                return;
            }
        }
        if self.can_scrobble_track(now_ms) {
            self.start_scrobble();
        }
        self.set_new_track(track_id, now_ms);
    }

    /// One non-blocking progress step over all five slots in the fixed
    /// priority order. Returns `Pending` unless some slot holds a
    /// failure, in which case the first such failure is returned as the
    /// fatal outcome and the errored slot is left in place, so later
    /// calls keep returning the same outcome without further progress.
    pub fn advance(&mut self, now_ms: u64) -> (r: AdvanceOutcome)
        ensures
            *final(self) == advance_spec(*old(self), now_ms).0,
            r == advance_spec(*old(self), now_ms).1,
            wf(*old(self)) ==> wf(*final(self)),
    {
        match &self.auth_slot {
            AuthSlot::Ready(res) => match res {
                Ok(_) => {
                    self.auth_slot = AuthSlot::Idle;
                },
                Err(e) => {
                    return fatal_outcome(e);
                },
            },
            _ => {},
        }

        if self.can_scrobble_track(now_ms) {
            self.start_scrobble();
        }

        let mut scrobble_done: Option<u64> = None;
        match &self.scrobble_slot {
            ScrobbleSlot::Ready { generation, outcome } => match outcome {
                Ok(_) => {
                    scrobble_done = Some(*generation);
                },
                Err(e) => {
                    return fatal_outcome(e);
                },
            },
            _ => {},
        }
        if let Some(g) = scrobble_done {
            if g == self.generation {
                self.current_track_scrobbled = true;
            }
            self.scrobble_slot = ScrobbleSlot::Idle;
        }

        let mut new_track_ready = false;
        match &self.new_track_slot {
            TrackChangeSlot::Ready(res) => match res {
                Ok(_) => {
                    new_track_ready = true;
                },
                Err(e) => {
                    return fatal_outcome(e);
                },
            },
            _ => {},
        }
        if new_track_ready {
            self.new_track_slot = TrackChangeSlot::Idle;
            self.current_track_scrobbled = false;
            match self.current_track_id {
                Some(track_id) => {
                    self.get_track_meta(track_id);
                },
                None => {},
            }
        }

        let mut fetched: Option<TrackMeta> = None;
        match &self.meta_fetch_slot {
            MetaFetchSlot::Ready(res) => match res {
                Ok(meta) => {
                    fetched = Some(meta.clone());
                },
                Err(e) => {
                    return fatal_outcome(e);
                },
            },
            _ => {},
        }
        if let Some(meta) = fetched {
            self.meta_fetch_slot = MetaFetchSlot::Idle;
            self.send_now_playing(&meta);
            self.current_track_meta = Some(meta);
        }

        match &self.now_playing_slot {
            NowPlayingSlot::Ready(res) => match res {
                Ok(_) => {
                    self.now_playing_slot = NowPlayingSlot::Idle;
                },
                Err(e) => {
                    return fatal_outcome(e);
                },
            },
            _ => {},
        }

        AdvanceOutcome::Pending
    }

    /// Records the authentication outcome the driver obtained from the
    /// backend; ignored if no authentication is outstanding.
    pub fn complete_auth(&mut self, outcome: Result<(), ScrobbleError>)
        ensures
            *final(self) == complete_auth_spec(*old(self), outcome),
            wf(*old(self)) ==> wf(*final(self)),
    {
        let started = matches!(self.auth_slot, AuthSlot::InFlight);
        if started {
            self.auth_slot = AuthSlot::Ready(outcome);
        }
    }

    /// Records the track-resolution outcome for the fetch of the named
    /// generation: a failure ends the fetch, and a record moves it to its
    /// artist stage with the record's primary artist — or ends it with
    /// the no-artists failure when the record's artist list is empty. A
    /// stale outcome is discarded.
    pub fn complete_track_resolve(
        &mut self,
        generation: u64,
        outcome: Result<TrackRecord, ScrobbleError>,
    )
        ensures
            !track_resolve_applies(*old(self), generation) ==> *final(self) == *old(self),
            track_resolve_applies(*old(self), generation) ==> match outcome {
                Err(e) => *final(self) == (Scrobbler {
                    meta_fetch_slot: MetaFetchSlot::Ready(Err(e)),
                    ..*old(self)
                }),
                Ok(rec) => if rec.artist_ids@.len() == 0 {
                    &&& (final(self).meta_fetch_slot matches MetaFetchSlot::Ready(Err(e))
                        && e.msg@ == "track has no artists"@)
                    &&& *final(self) == (Scrobbler {
                        meta_fetch_slot: final(self).meta_fetch_slot,
                        ..*old(self)
                    })
                } else {
                    *final(self) == (Scrobbler {
                        meta_fetch_slot: MetaFetchSlot::FetchArtist {
                            generation,
                            artist_id: rec.artist_ids@[0],
                            track_name: rec.name,
                            album_id: rec.album_id,
                        },
                        ..*old(self)
                    })
                },
            },
            wf(*old(self)) ==> wf(*final(self)),
    {
        let applies = match &self.meta_fetch_slot {
            MetaFetchSlot::FetchTrack { generation: g, .. } => *g == generation,
            _ => false,
        };
        if applies {
            match outcome {
                Err(e) => {
                    self.meta_fetch_slot = MetaFetchSlot::Ready(Err(e));
                },
                Ok(rec) => match primary_artist(&rec) {
                    Err(e) => {
                        self.meta_fetch_slot = MetaFetchSlot::Ready(Err(e));
                    },
                    Ok(artist_id) => {
                        self.meta_fetch_slot = MetaFetchSlot::FetchArtist {
                            generation,
                            artist_id,
                            track_name: rec.name,
                            album_id: rec.album_id,
                        };
                    },
                },
            }
        }
    }

    /// Records the artist-resolution outcome for the fetch of the named
    /// generation: a failure ends the fetch, a name moves it to its album
    /// stage; a stale outcome is discarded.
    pub fn complete_artist_resolve(
        &mut self,
        generation: u64,
        outcome: Result<String, ScrobbleError>,
    )
        ensures
            !artist_resolve_applies(*old(self), generation) ==> *final(self) == *old(self),
            artist_resolve_applies(*old(self), generation) ==> match old(self).meta_fetch_slot {
                MetaFetchSlot::FetchArtist { track_name, album_id, .. } => match outcome {
                    Err(e) => *final(self) == (Scrobbler {
                        meta_fetch_slot: MetaFetchSlot::Ready(Err(e)),
                        ..*old(self)
                    }),
                    Ok(artist_name) => *final(self) == (Scrobbler {
                        meta_fetch_slot: MetaFetchSlot::FetchAlbum {
                            generation,
                            artist_name,
                            track_name,
                            album_id,
                        },
                        ..*old(self)
                    }),
                },
                _ => true,
            },
            wf(*old(self)) ==> wf(*final(self)),
    {
        let staged = match &self.meta_fetch_slot {
            MetaFetchSlot::FetchArtist { generation: g, track_name, album_id, .. } => {
                if *g == generation {
                    Some((track_name.clone(), *album_id))
                } else {
                    None
                }
            },
            _ => None,
        };
        if let Some((track_name, album_id)) = staged {
            match outcome {
                Err(e) => {
                    self.meta_fetch_slot = MetaFetchSlot::Ready(Err(e));
                },
                Ok(artist_name) => {
                    self.meta_fetch_slot = MetaFetchSlot::FetchAlbum {
                        generation,
                        artist_name,
                        track_name,
                        album_id,
                    };
                },
            }
        }
    }

    /// Records the album-resolution outcome for the fetch of the named
    /// generation: a failure ends the fetch, a name completes the
    /// (artist, track, album) triple; a stale outcome is discarded.
    pub fn complete_album_resolve(
        &mut self,
        generation: u64,
        outcome: Result<String, ScrobbleError>,
    )
        ensures
            !album_resolve_applies(*old(self), generation) ==> *final(self) == *old(self),
            album_resolve_applies(*old(self), generation) ==> match old(self).meta_fetch_slot {
                MetaFetchSlot::FetchAlbum { artist_name, track_name, .. } => match outcome {
                    Err(e) => *final(self) == (Scrobbler {
                        meta_fetch_slot: MetaFetchSlot::Ready(Err(e)),
                        ..*old(self)
                    }),
                    Ok(album_name) => *final(self) == (Scrobbler {
                        meta_fetch_slot: MetaFetchSlot::Ready(Ok(TrackMeta {
                            artist: artist_name,
                            track: track_name,
                            album: album_name,
                        })),
                        ..*old(self)
                    }),
                },
                _ => true,
            },
            wf(*old(self)) ==> wf(*final(self)),
    {
        let staged = match &self.meta_fetch_slot {
            MetaFetchSlot::FetchAlbum { generation: g, artist_name, track_name, .. } => {
                if *g == generation {
                    Some((artist_name.clone(), track_name.clone()))
                } else {
                    None
                }
            },
            _ => None,
        };
        if let Some((artist_name, track_name)) = staged {
            match outcome {
                Err(e) => {
                    self.meta_fetch_slot = MetaFetchSlot::Ready(Err(e));
                },
                Ok(album_name) => {
                    self.meta_fetch_slot = MetaFetchSlot::Ready(
                        Ok(TrackMeta { artist: artist_name, track: track_name, album: album_name }),
                    );
                },
            }
        }
    }

    /// Records a now-playing outcome for the notification of the named
    /// generation; an outcome for a superseded notification is discarded.
    pub fn complete_now_playing(&mut self, generation: u64, outcome: Result<(), ScrobbleError>)
        ensures
            *final(self) == complete_now_playing_spec(*old(self), generation, outcome),
            wf(*old(self)) ==> wf(*final(self)),
    {
        let applies = match &self.now_playing_slot {
            NowPlayingSlot::InFlight { generation: g, .. } => *g == generation,
            _ => false,
        };
        if applies {
            self.now_playing_slot = NowPlayingSlot::Ready(outcome);
        }
    }

    /// Records a scrobble-submission outcome for the submission of the
    /// named generation; an outcome for a superseded submission is
    /// discarded.
    pub fn complete_scrobble(&mut self, generation: u64, outcome: Result<(), ScrobbleError>)
        ensures
            *final(self) == complete_scrobble_spec(*old(self), generation, outcome),
            wf(*old(self)) ==> wf(*final(self)),
    {
        let applies = match &self.scrobble_slot {
            ScrobbleSlot::InFlight { generation: g, .. } => *g == generation,
            _ => false,
        };
        if applies {
            self.scrobble_slot = ScrobbleSlot::Ready { generation, outcome };
        }
    }
}

} // verus!
