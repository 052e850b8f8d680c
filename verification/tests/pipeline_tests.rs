use scrobbler::{
    AdvanceOutcome, AuthSlot, MetaFetchSlot, NowPlayingSlot, ScrobbleError, ScrobbleSlot,
    Scrobbler, ScrobblerConfig, SpotifyId, TrackChangeSlot,
};

fn config() -> ScrobblerConfig {
    ScrobblerConfig {
        api_key: "api-key".to_string(),
        api_secret: "api-secret".to_string(),
        username: "listener".to_string(),
        password: "secret".to_string(),
    }
}

fn record(name: &str, artist: SpotifyId, album: SpotifyId) -> scrobbler::TrackRecord {
    scrobbler::TrackRecord {
        name: name.to_string(),
        artist_ids: vec![artist],
        album_id: album,
    }
}

/// Drives the staged metadata fetch of `generation` to completion with
/// the names ("Band", "Song", "Record").
fn resolve_band_song_record(s: &mut Scrobbler, generation: u64) {
    s.complete_track_resolve(
        generation,
        Ok(record("Song", SpotifyId::new(11), SpotifyId::new(33))),
    );
    s.complete_artist_resolve(generation, Ok("Band".to_string()));
    s.complete_album_resolve(generation, Ok("Record".to_string()));
}

/// Builds a tracker that is authenticated and has `id` as its current
/// track with resolved metadata, started at `start_ms`.
fn tracker_with_metadata(id: SpotifyId, start_ms: u64) -> Scrobbler {
    let mut s = Scrobbler::new(config());
    s.complete_auth(Ok(()));
    assert!(matches!(s.advance(start_ms), AdvanceOutcome::Pending));
    s.update_current_track(id, true, start_ms);
    assert!(matches!(s.advance(start_ms), AdvanceOutcome::Pending));
    let generation = s.generation;
    resolve_band_song_record(&mut s, generation);
    assert!(matches!(s.advance(start_ms), AdvanceOutcome::Pending));
    s.complete_now_playing(generation, Ok(()));
    assert!(matches!(s.advance(start_ms), AdvanceOutcome::Pending));
    assert!(s.current_track_meta.is_some());
    assert!(matches!(s.now_playing_slot, NowPlayingSlot::Idle));
    s
}

#[test]
fn scenario_auth_resolves_and_slot_clears() {
    let mut s = Scrobbler::new(config());
    assert!(matches!(s.advance(0), AdvanceOutcome::Pending));
    assert!(matches!(s.auth_slot, AuthSlot::InFlight));
    s.complete_auth(Ok(()));
    assert!(matches!(s.advance(1), AdvanceOutcome::Pending));
    assert!(matches!(s.auth_slot, AuthSlot::Idle));
}

#[test]
fn scenario_forced_change_runs_whole_pipeline() {
    let mut s = Scrobbler::new(config());
    s.complete_auth(Ok(()));
    assert!(matches!(s.advance(0), AdvanceOutcome::Pending));
    let t1 = SpotifyId::new(1);
    s.update_current_track(t1, true, 0);
    assert!(matches!(
        s.new_track_slot,
        TrackChangeSlot::Ready(Ok(()))
    ));
    assert!(matches!(s.advance(100), AdvanceOutcome::Pending));
    match &s.meta_fetch_slot {
        MetaFetchSlot::FetchTrack {
            generation,
            track_id,
        } => {
            assert_eq!(*generation, 1);
            assert_eq!(*track_id, t1);
        }
        other => panic!("metadata fetch not started: {:?}", other),
    }
    resolve_band_song_record(&mut s, 1);
    assert!(matches!(s.advance(200), AdvanceOutcome::Pending));
    let stored = s.current_track_meta.as_ref().expect("metadata stored");
    assert_eq!(stored.artist, "Band");
    assert_eq!(stored.track, "Song");
    assert_eq!(stored.album, "Record");
    match &s.now_playing_slot {
        NowPlayingSlot::InFlight { generation, meta } => {
            assert_eq!(*generation, 1);
            assert_eq!(meta.track, "Song");
        }
        other => panic!("now-playing not started: {:?}", other),
    }
    s.complete_now_playing(1, Ok(()));
    assert!(matches!(s.advance(300), AdvanceOutcome::Pending));
    assert!(matches!(s.now_playing_slot, NowPlayingSlot::Idle));
    assert!(matches!(s.scrobble_slot, ScrobbleSlot::Idle));
    assert!(matches!(s.advance(21_001), AdvanceOutcome::Pending));
    match &s.scrobble_slot {
        ScrobbleSlot::InFlight { generation, meta } => {
            assert_eq!(*generation, 1);
            assert_eq!(meta.artist, "Band");
        }
        other => panic!("scrobble not started: {:?}", other),
    }
}

#[test]
fn scenario_empty_artist_list_is_fatal() {
    let mut s = Scrobbler::new(config());
    s.complete_auth(Ok(()));
    assert!(matches!(s.advance(0), AdvanceOutcome::Pending));
    s.update_current_track(SpotifyId::new(1), true, 0);
    assert!(matches!(s.advance(1), AdvanceOutcome::Pending));
    let rec = scrobbler::TrackRecord {
        name: "Song".to_string(),
        artist_ids: vec![],
        album_id: SpotifyId::new(2),
    };
    s.complete_track_resolve(1, Ok(rec));
    match s.advance(2) {
        AdvanceOutcome::Fatal(e) => assert_eq!(e.msg, "track has no artists"),
        AdvanceOutcome::Pending => panic!("metadata failure was not fatal"),
    }
}

#[test]
fn scenario_duplicate_unforced_change_is_noop() {
    let mut s = Scrobbler::new(config());
    s.complete_auth(Ok(()));
    assert!(matches!(s.advance(0), AdvanceOutcome::Pending));
    let t1 = SpotifyId::new(1);
    s.update_current_track(t1, false, 0);
    assert!(matches!(s.advance(10), AdvanceOutcome::Pending));
    assert!(matches!(
        s.meta_fetch_slot,
        MetaFetchSlot::FetchTrack { generation: 1, .. }
    ));
    s.update_current_track(t1, false, 5_000);
    assert_eq!(s.current_track_start, Some(0));
    assert_eq!(s.generation, 1);
    assert!(matches!(s.new_track_slot, TrackChangeSlot::Idle));
    assert!(matches!(
        s.meta_fetch_slot,
        MetaFetchSlot::FetchTrack { generation: 1, .. }
    ));
}

#[test]
fn eligible_track_is_scrobbled_before_replacement() {
    let a = SpotifyId::new(1);
    let b = SpotifyId::new(2);
    let mut s = tracker_with_metadata(a, 0);
    s.update_current_track(b, true, 30_000);
    match &s.scrobble_slot {
        ScrobbleSlot::InFlight { generation, meta } => {
            assert_eq!(*generation, 1, "submission belongs to the outgoing track");
            assert_eq!(meta.track, "Song");
        }
        other => panic!("no submission for the outgoing track: {:?}", other),
    }
    assert_eq!(s.current_track_id, Some(b));
    assert_eq!(s.generation, 2);
    assert!(s.current_track_meta.is_none());
    assert!(!s.current_track_scrobbled);
}

#[test]
fn successful_scrobble_is_never_submitted_twice() {
    let mut s = tracker_with_metadata(SpotifyId::new(1), 0);
    assert!(matches!(s.advance(25_000), AdvanceOutcome::Pending));
    assert!(matches!(s.scrobble_slot, ScrobbleSlot::InFlight { .. }));
    s.complete_scrobble(1, Ok(()));
    assert!(matches!(s.advance(26_000), AdvanceOutcome::Pending));
    assert!(s.current_track_scrobbled);
    assert!(matches!(s.scrobble_slot, ScrobbleSlot::Idle));
    for now in [30_000u64, 60_000, 600_000] {
        assert!(matches!(s.advance(now), AdvanceOutcome::Pending));
        assert!(matches!(s.scrobble_slot, ScrobbleSlot::Idle));
        assert!(s.current_track_scrobbled);
    }
}

#[test]
fn auth_failure_is_fatal_and_halts_progress() {
    let mut s = Scrobbler::new(config());
    s.update_current_track(SpotifyId::new(1), true, 0);
    s.complete_auth(Err(ScrobbleError::new("bad credentials".to_string())));
    match s.advance(1) {
        AdvanceOutcome::Fatal(e) => assert_eq!(e.msg, "bad credentials"),
        AdvanceOutcome::Pending => panic!("authentication failure was not fatal"),
    }
    assert!(matches!(
        s.new_track_slot,
        TrackChangeSlot::Ready(Ok(()))
    ));
    assert!(matches!(s.meta_fetch_slot, MetaFetchSlot::Idle));
    match s.advance(100_000) {
        AdvanceOutcome::Fatal(e) => assert_eq!(e.msg, "bad credentials"),
        AdvanceOutcome::Pending => panic!("fatal outcome was not sticky"),
    }
    assert!(matches!(s.meta_fetch_slot, MetaFetchSlot::Idle));
    assert!(matches!(s.scrobble_slot, ScrobbleSlot::Idle));
}

#[test]
fn scrobble_failure_is_fatal() {
    let mut s = tracker_with_metadata(SpotifyId::new(1), 0);
    assert!(matches!(s.advance(25_000), AdvanceOutcome::Pending));
    s.complete_scrobble(1, Err(ScrobbleError::new("submit failed".to_string())));
    match s.advance(26_000) {
        AdvanceOutcome::Fatal(e) => assert_eq!(e.msg, "submit failed"),
        AdvanceOutcome::Pending => panic!("scrobble failure was not fatal"),
    }
    assert!(!s.current_track_scrobbled);
}

#[test]
fn now_playing_failure_is_fatal() {
    let mut s = Scrobbler::new(config());
    s.complete_auth(Ok(()));
    assert!(matches!(s.advance(0), AdvanceOutcome::Pending));
    s.update_current_track(SpotifyId::new(1), true, 0);
    assert!(matches!(s.advance(1), AdvanceOutcome::Pending));
    resolve_band_song_record(&mut s, 1);
    assert!(matches!(s.advance(2), AdvanceOutcome::Pending));
    s.complete_now_playing(1, Err(ScrobbleError::new("notify failed".to_string())));
    match s.advance(3) {
        AdvanceOutcome::Fatal(e) => assert_eq!(e.msg, "notify failed"),
        AdvanceOutcome::Pending => panic!("now-playing failure was not fatal"),
    }
}

#[test]
fn track_change_failure_is_fatal() {
    let mut s = Scrobbler::new(config());
    s.new_track_slot = TrackChangeSlot::Ready(Err(ScrobbleError::new(
        "track change failed".to_string(),
    )));
    match s.advance(0) {
        AdvanceOutcome::Fatal(e) => assert_eq!(e.msg, "track change failed"),
        AdvanceOutcome::Pending => panic!("track-change failure was not fatal"),
    }
}

#[test]
fn stale_scrobble_success_does_not_mark_replacement_track() {
    let a = SpotifyId::new(1);
    let b = SpotifyId::new(2);
    let mut s = tracker_with_metadata(a, 0);
    s.update_current_track(b, true, 30_000);
    assert!(matches!(
        s.scrobble_slot,
        ScrobbleSlot::InFlight { generation: 1, .. }
    ));
    assert_eq!(s.generation, 2);
    s.complete_scrobble(1, Ok(()));
    assert!(matches!(s.advance(30_001), AdvanceOutcome::Pending));
    assert!(
        !s.current_track_scrobbled,
        "the submission for the outgoing track must not mark its replacement"
    );
    assert!(matches!(s.scrobble_slot, ScrobbleSlot::Idle));
}

#[test]
fn unforced_change_to_new_id_is_accepted() {
    let mut s = Scrobbler::new(config());
    s.update_current_track(SpotifyId::new(1), false, 0);
    assert_eq!(s.current_track_id, Some(SpotifyId::new(1)));
    s.update_current_track(SpotifyId::new(2), false, 10);
    assert_eq!(s.current_track_id, Some(SpotifyId::new(2)));
    assert_eq!(s.current_track_start, Some(10));
    assert_eq!(s.generation, 2);
}
