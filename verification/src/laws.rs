//! Laws of the playback tracker, proved once over the spec-level
//! transition functions that every public method is pinned to.
use vstd::prelude::*;
use crate::error::ScrobbleError;
use crate::slots::{AdvanceOutcome, AuthSlot, MetaFetchSlot, ScrobbleSlot, TrackChangeSlot};
use crate::tracker::{accepts_change, advance_spec, can_scrobble_spec, set_new_track_spec,
    update_spec, wf, Scrobbler, SCROBBLE_THRESHOLD_MS};
use crate::types::{SpotifyId, TrackMeta};

verus! {

/// Law: track-change events are idempotent. Once an unforced event for
/// `track_id` has been applied, every further unforced event for the same
/// id leaves the tracker exactly as it was — in particular it neither
/// restarts the play clock nor clears the stored metadata.
pub proof fn lemma_track_change_idempotent(
    s: Scrobbler,
    track_id: SpotifyId,
    now1: u64,
    now2: u64,
)
    ensures
        ({
            let s1 = update_spec(s, track_id, false, now1);
            &&& s1.current_track_id == Some(track_id)
            &&& update_spec(s1, track_id, false, now2) == s1
        }),
{
}

/// Law: the eligibility threshold. A current track whose elapsed play
/// time falls short of the threshold is never eligible; one that has
/// played at least the threshold is eligible as soon as it is
/// unscrobbled and no submission is outstanding.
pub proof fn lemma_eligibility_threshold(s: Scrobbler, start: u64, now_ms: u64)
    requires
        s.current_track_start == Some(start),
    ensures
        now_ms - start < SCROBBLE_THRESHOLD_MS ==> !can_scrobble_spec(s, now_ms),
        (now_ms - start >= SCROBBLE_THRESHOLD_MS && !s.current_track_scrobbled
            && s.scrobble_slot is Idle) ==> can_scrobble_spec(s, now_ms),
{
}

/// Law: scrobble before replace. When a track-change event replaces an
/// eligible current track, the accepted event leaves a scrobble
/// submission in flight that carries the outgoing track's metadata and
/// its generation — started before the replacement, which holds the next
/// generation.
pub proof fn lemma_scrobble_starts_before_replacement(
    s: Scrobbler,
    meta: TrackMeta,
    new_id: SpotifyId,
    force_new_track: bool,
    now_ms: u64,
)
    requires
        can_scrobble_spec(s, now_ms),
        s.current_track_meta == Some(meta),
        s.generation < u64::MAX,
        accepts_change(s, new_id, force_new_track),
    ensures
        ({
            let s2 = update_spec(s, new_id, force_new_track, now_ms);
            &&& s2.scrobble_slot == (ScrobbleSlot::InFlight { generation: s.generation, meta })
            &&& s2.current_track_id == Some(new_id)
            &&& s2.generation == s.generation + 1
            &&& s2.current_track_meta is None
            &&& !s2.current_track_scrobbled
        }),
{
}

/// Law: no double scrobble. Once the current track is marked scrobbled
/// and no submission or track change is outstanding, an `advance` call
/// never starts another submission — and it re-establishes every
/// precondition of this law, so by induction no later call starts one
/// either, until a track change begins a new track instance.
pub proof fn lemma_no_double_scrobble(s: Scrobbler, now_ms: u64)
    requires
        wf(s),
        s.current_track_scrobbled,
        s.scrobble_slot is Idle,
        s.new_track_slot is Idle,
    ensures
        ({
            let s2 = advance_spec(s, now_ms).0;
            &&& s2.scrobble_slot is Idle
            &&& s2.current_track_scrobbled
            &&& s2.new_track_slot is Idle
            &&& wf(s2)
        }),
{
}

/// Law: fatal short-circuit. While the authentication slot holds a
/// failure, `advance` reports that failure and changes nothing at all —
/// no other slot is progressed, and since the state is unchanged the same
/// holds of every later call.
pub proof fn lemma_auth_failure_halts(s: Scrobbler, e: ScrobbleError, now_ms: u64)
    requires
        s.auth_slot == AuthSlot::Ready(Err::<(), ScrobbleError>(e)),
    ensures
        advance_spec(s, now_ms).0 == s,
        advance_spec(s, now_ms).1 == AdvanceOutcome::Fatal(e),
{
}

/// Law: a failed metadata fetch is fatal and stores nothing. When the
/// fetch has ended in a failure — at any of its stages, the empty artist
/// list included — while no earlier slot holds a failure and no track
/// change is pending, `advance` reports exactly that failure and the
/// stored metadata is left untouched: no partial metadata ever lands.
pub proof fn lemma_meta_failure_is_fatal(s: Scrobbler, e: ScrobbleError, now_ms: u64)
    requires
        s.meta_fetch_slot == MetaFetchSlot::Ready(Err::<TrackMeta, ScrobbleError>(e)),
        !(s.auth_slot matches AuthSlot::Ready(Err(_))),
        !(s.scrobble_slot matches ScrobbleSlot::Ready { outcome: Err(_), .. }),
        s.new_track_slot is Idle,
    ensures
        advance_spec(s, now_ms).1 == AdvanceOutcome::Fatal(e),
        advance_spec(s, now_ms).0.current_track_meta == s.current_track_meta,
{
}

/// Law: a stale scrobble success is discarded. A submission that was
/// started for an earlier generation — its track has since been replaced
/// — never marks the replacement track as scrobbled when it completes.
pub proof fn lemma_stale_scrobble_discarded(
    s: Scrobbler,
    generation: u64,
    outcome: Result<(), ScrobbleError>,
    now_ms: u64,
)
    requires
        s.scrobble_slot == (ScrobbleSlot::Ready { generation, outcome }),
        generation != s.generation,
        !s.current_track_scrobbled,
        outcome is Ok,
    ensures
        ({
            let s2 = advance_spec(s, now_ms).0;
            &&& !s2.current_track_scrobbled
            &&& s2.scrobble_slot is Idle || s2.scrobble_slot == s.scrobble_slot
        }),
{
}

/// Law: replacing the current track never carries the scrobbled flag or
/// the metadata of the outgoing track over to its replacement.
pub proof fn lemma_replacement_starts_clean(s: Scrobbler, track_id: SpotifyId, now_ms: u64)
    requires
        s.generation < u64::MAX,
    ensures
        ({
            let s2 = set_new_track_spec(s, track_id, now_ms);
            &&& !s2.current_track_scrobbled
            &&& s2.current_track_meta is None
            &&& s2.current_track_start == Some(now_ms)
        }),
{
}

} // verus!
