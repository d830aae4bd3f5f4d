//! Track-change matching: deduplication of repeated observations of one
//! track, and construction of the provider query for a genuine change.

use vstd::prelude::*;
use vstd::string::StringExecFns;
use vstd::utf8::encode_utf8;
use crate::urlenc::percent_encode;
use crate::urlenc::percent_encoding;

verus! {

/// One instant of "currently playing": the track's identifier, the display
/// name of its first artist, and its title.
pub struct TrackSnapshot {
    pub id: String,
    pub artist: String,
    pub title: String,
}

/// The text that is searched for: `{artist} - {title}`.
pub open spec fn query_text(artist: Seq<char>, title: Seq<char>) -> Seq<char> {
    artist + " - "@ + title
}

/// The full provider query: the fixed video-only prefix followed by the
/// percent-encoded query text.
pub open spec fn search_query(artist: Seq<char>, title: Seq<char>) -> Seq<char> {
    "type=video&q="@ + percent_encoding(encode_utf8(query_text(artist, title)))
}

/// Builds the provider query for a track: `type=video&q=` followed by
/// `{artist} - {title}`, percent-encoded.
pub fn build_search_query(artist: &str, title: &str) -> (q: String)
    ensures
        q@ == search_query(artist@, title@),
{
    let mut text: String = artist.to_owned();
    text.append(" - ");
    text.append(title);
    let encoded = percent_encode(&text);
    let mut q: String = "type=video&q=".to_owned();
    q.append(&encoded);
    q
}

/// Whether observing `id` when `last` is the most recently processed track
/// identifier is a genuine change.
pub open spec fn is_change(last: Option<Seq<char>>, id: Seq<char>) -> bool {
    match last {
        Option::Some(prev) => prev != id,
        Option::None => true,
    }
}

/// The last-seen cell after `id` has been observed: a genuine change is
/// recorded, a repeat leaves the cell as it was.
pub open spec fn next_last_seen(last: Option<Seq<char>>, id: Seq<char>) -> Option<Seq<char>> {
    if is_change(last, id) {
        Option::Some(id)
    } else {
        last
    }
}

/// Suppresses repeated observations of one track: it remembers the most
/// recently processed track identifier and reports a search request only
/// when the identifier changes.
pub struct Matcher {
    last_seen: Option<String>,
}

impl Matcher {
    /// The most recently processed track identifier, or `None` before the
    /// first observation.
    pub closed spec fn last_seen_id(&self) -> Option<Seq<char>> {
        match self.last_seen {
            Option::Some(s) => Option::Some(s@),
            Option::None => Option::None,
        }
    }

    /// A matcher that has processed nothing yet.
    pub fn new() -> (m: Matcher)
        ensures
            m.last_seen_id() is None,
    {
        Matcher { last_seen: None }
    }

    /// Observes one track. On a genuine change the last-seen cell is updated
    /// first and the provider query to search for is returned; when the
    /// identifier equals the one processed last, nothing changes and no
    /// query is produced.
    pub fn observe(&mut self, track: &TrackSnapshot) -> (r: Option<String>)
        ensures
            final(self).last_seen_id() == next_last_seen(old(self).last_seen_id(), track.id@),
            r is Some <==> is_change(old(self).last_seen_id(), track.id@),
            (r matches Some(q) ==> q@ == search_query(track.artist@, track.title@)),
    {
        let duplicate = match &self.last_seen {
            Some(prev) => *prev == track.id,
            None => false,
        };
        if duplicate {
            return None;
        }
        self.last_seen = Some(track.id.clone());
        Some(build_search_query(&track.artist, &track.title))
    }
}

/// The number of maximal runs of identical consecutive identifiers in `ids`.
pub open spec fn run_count(ids: Seq<Seq<char>>) -> nat
    decreases ids.len(),
{
    if ids.len() == 0 {
        0
    } else if ids.len() == 1 {
        1
    } else if ids[0] == ids[1] {
        run_count(ids.drop_first())
    } else {
        1 + run_count(ids.drop_first())
    }
}

/// How many searches a matcher whose last-seen cell holds `last` issues over
/// the observations `ids`, taken in order.
pub open spec fn search_count(last: Option<Seq<char>>, ids: Seq<Seq<char>>) -> nat
    decreases ids.len(),
{
    if ids.len() == 0 {
        0
    } else {
        (if is_change(last, ids[0]) {
            1nat
        } else {
            0nat
        }) + search_count(next_last_seen(last, ids[0]), ids.drop_first())
    }
}

/// The matcher searches at most once per maximal run of identical
/// consecutive track identifiers: exactly once for every run, except that
/// the leading run is skipped when its identifier is already the last-seen
/// one. In particular a fresh matcher (`last == None`) searches exactly once
/// per run.
pub proof fn lemma_search_once_per_run(last: Option<Seq<char>>, ids: Seq<Seq<char>>)
    ensures
        ids.len() == 0 ==> search_count(last, ids) == 0,
        ids.len() > 0 && last == Option::Some(ids[0]) ==> search_count(last, ids) + 1
            == run_count(ids),
        ids.len() > 0 && last != Option::Some(ids[0]) ==> search_count(last, ids) == run_count(
            ids,
        ),
        search_count(last, ids) <= run_count(ids),
    decreases ids.len(),
{
    if ids.len() > 0 {
        let rest = ids.drop_first();
        lemma_search_once_per_run(Option::Some(ids[0]), rest);
        assert(next_last_seen(last, ids[0]) == Option::Some(ids[0]));
        if ids.len() > 1 {
            assert(rest[0] == ids[1]);
        }
    }
}

} // verus!
