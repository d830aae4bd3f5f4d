//! Handling of one provider result set: extracting video identifiers,
//! surfacing an unexpected item shape as a typed error, and deciding what —
//! if anything — is written to the clipboard.

use vstd::prelude::*;
use vstd::string::StringExecFns;

verus! {

/// One item of a provider result set, reduced to what the logic reads: a
/// video carries its identifier; any other shape is not a video.
pub enum SearchItem {
    Video { id: String },
    Other,
}

/// A result item whose shape is not the expected video variant: a violation
/// of the provider's protocol contract, reported as a typed error rather
/// than ending the process.
#[derive(Clone, Copy, Debug, PartialEq, Eq, Structural)]
pub enum SearchError {
    UnexpectedItemKind,
}

/// The canonical watch URL for a video identifier.
pub open spec fn watch_url(id: Seq<char>) -> Seq<char> {
    "https://www.youtube.com/watch?v="@ + id
}

/// The identifiers of the result items, in their ranked order, when every
/// item is the video variant; the typed error as soon as any other shape
/// appears.
pub fn video_ids(items: &Vec<SearchItem>) -> (r: Result<Vec<String>, SearchError>)
    ensures
        (r is Ok <==> (forall|i: int| 0 <= i < items@.len() ==> items@[i] is Video)),
        (r matches Ok(ids) ==> {
            &&& ids@.len() == items@.len()
            &&& (forall|i: int| 0 <= i < items@.len() ==> ids@[i]@ == items@[i]->id@)
        }),
        (r matches Err(e) ==> e == SearchError::UnexpectedItemKind),
{
    let mut ids: Vec<String> = Vec::new();
    let mut idx: usize = 0;
    while idx < items.len()
        invariant
            idx <= items@.len(),
            ids@.len() == idx,
            forall|i: int| 0 <= i < idx ==> items@[i] is Video,
            forall|i: int| 0 <= i < idx ==> ids@[i]@ == items@[i]->id@,
        decreases items@.len() - idx,
    {
        match &items[idx] {
            SearchItem::Video { id } => ids.push(id.clone()),
            SearchItem::Other => {
                return Err(SearchError::UnexpectedItemKind);
            },
        }
        idx += 1;
    }
    Ok(ids)
}

/// What one poll tick does with the extracted identifiers: report that
/// nothing was found, or copy the first — highest-ranked — result's watch
/// URL, carrying the result count for the report.
pub enum ClipboardDecision {
    NoResults,
    Copy { url: String, count: usize },
}

/// Decides the clipboard action for an ordered result set: an empty set is
/// never written; a non-empty set always yields the first item's watch URL,
/// whatever the set's size.
pub fn decide_clipboard(ids: &Vec<String>) -> (d: ClipboardDecision)
    ensures
        ids@.len() == 0 <==> d is NoResults,
        ids@.len() > 0 ==> d is Copy,
        (d matches ClipboardDecision::Copy { url, count } ==> {
            &&& url@ == watch_url(ids@[0]@)
            &&& count == ids@.len()
        }),
{
    if ids.len() == 0 {
        ClipboardDecision::NoResults
    } else {
        let mut url: String = "https://www.youtube.com/watch?v=".to_owned();
        url.append(&ids[0]);
        ClipboardDecision::Copy { url, count: ids.len() }
    }
}

/// Handles one result set end to end: extracts the video identifiers —
/// reporting the typed error on an unexpected shape — and decides the
/// clipboard action from them.
pub fn process_results(items: &Vec<SearchItem>) -> (r: Result<ClipboardDecision, SearchError>)
    ensures
        (r is Ok <==> (forall|i: int| 0 <= i < items@.len() ==> items@[i] is Video)),
        (r matches Ok(d) ==> {
            &&& (items@.len() == 0 <==> d is NoResults)
            &&& items@.len() > 0 ==> d is Copy
            &&& (d matches ClipboardDecision::Copy { url, count } ==> {
                &&& url@ == watch_url(items@[0]->id@)
                &&& count == items@.len()
            })
        }),
        (r matches Err(e) ==> e == SearchError::UnexpectedItemKind),
{
    match video_ids(items) {
        Ok(ids) => Ok(decide_clipboard(&ids)),
        Err(e) => Err(e),
    }
}

} // verus!
