//! The poll loop's decisions: when the wait-for-session phase may end, and
//! what one poll tick does with the playback state the service reported.

use vstd::prelude::*;
use crate::auth::SessionStore;
use crate::matcher::Matcher;
use crate::matcher::TrackSnapshot;
use crate::matcher::is_change;
use crate::matcher::next_last_seen;
use crate::matcher::search_query;

verus! {

/// Whether the poll loop may leave its wait phase: the store holds a
/// session. Until then the loop keeps sleeping and asking again.
pub fn session_ready(store: &SessionStore) -> (b: bool)
    ensures
        b == (store.session is Some),
{
    store.session.is_some()
}

/// What one playback-state query produced, as handed back by the service: a
/// transient error, silence, something that is not a track, or a track.
pub enum PlaybackEvent {
    QueryFailed,
    NothingPlaying,
    NonTrackItem,
    TrackPlaying(TrackSnapshot),
}

/// What one poll tick decided. A transient query error is reported and the
/// loop continues; silence and non-track items do nothing; a repeated track
/// is suppressed; a genuine change yields the search to issue, with the
/// artist and title for the report.
pub enum TickOutcome {
    ReportQueryError,
    Idle,
    DuplicateTrack,
    Search { query: String, artist: String, title: String },
}

/// Decides one tick of the poll loop. Errors never end the loop and touch
/// nothing; only a track event reaches the matcher, and only a genuine
/// track change produces a search request.
pub fn poll_tick(m: &mut Matcher, event: PlaybackEvent) -> (out: TickOutcome)
    ensures
        event is QueryFailed ==> out is ReportQueryError && final(m).last_seen_id() == old(
            m,
        ).last_seen_id(),
        event is NothingPlaying ==> out is Idle && final(m).last_seen_id() == old(
            m,
        ).last_seen_id(),
        event is NonTrackItem ==> out is Idle && final(m).last_seen_id() == old(m).last_seen_id(),
        (event matches PlaybackEvent::TrackPlaying(t) ==> {
            &&& final(m).last_seen_id() == next_last_seen(old(m).last_seen_id(), t.id@)
            &&& (out matches TickOutcome::Search { .. } <==> is_change(
                old(m).last_seen_id(),
                t.id@,
            ))
            &&& !is_change(old(m).last_seen_id(), t.id@) ==> out is DuplicateTrack
            &&& (out matches TickOutcome::Search { query, artist, title } ==> {
                &&& query@ == search_query(t.artist@, t.title@)
                &&& artist@ == t.artist@
                &&& title@ == t.title@
            })
        }),
{
    match event {
        PlaybackEvent::QueryFailed => TickOutcome::ReportQueryError,
        PlaybackEvent::NothingPlaying => TickOutcome::Idle,
        PlaybackEvent::NonTrackItem => TickOutcome::Idle,
        PlaybackEvent::TrackPlaying(t) => {
            match m.observe(&t) {
                Some(query) => TickOutcome::Search { query, artist: t.artist, title: t.title },
                None => TickOutcome::DuplicateTrack,
            }
        },
    }
}

} // verus!
