//! A verified playback-tracking state machine for a last.fm-style
//! scrobbling service.
//!
//! The tracker owns the notion of a current track, decides when that track
//! has played long enough to qualify for a scrobble, and sequences five
//! asynchronous operations (authentication, track-change acknowledgment,
//! metadata fetch, now-playing notification, scrobble submission) through
//! explicit slots that an outside driver polls to completion.

pub mod error;
pub mod laws;
pub mod slots;
pub mod tracker;
pub mod types;

pub use error::ScrobbleError;
pub use slots::AdvanceOutcome;
pub use slots::AuthSlot;
pub use slots::MetaFetchSlot;
pub use slots::NowPlayingSlot;
pub use slots::ScrobbleSlot;
pub use slots::TrackChangeSlot;
pub use tracker::Scrobbler;
pub use tracker::ScrobblerConfig;
pub use tracker::SCROBBLE_THRESHOLD_MS;
pub use types::SpotifyId;
pub use types::TrackMeta;
pub use types::TrackRecord;
pub use types::primary_artist;
