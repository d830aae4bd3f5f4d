use s2yt::search::ClipboardDecision;
use s2yt::search::SearchError;
use s2yt::search::SearchItem;
use s2yt::search::decide_clipboard;
use s2yt::search::process_results;
use s2yt::search::video_ids;

fn video(id: &str) -> SearchItem {
    SearchItem::Video { id: id.to_owned() }
}

#[test]
fn first_result_is_selected() {
    let ids = vec!["v1".to_owned(), "v2".to_owned()];
    match decide_clipboard(&ids) {
        ClipboardDecision::Copy { url, count } => {
            assert_eq!(url, "https://www.youtube.com/watch?v=v1".to_owned());
            assert_eq!(count, 2);
        },
        ClipboardDecision::NoResults => panic!("a non-empty result set must be copied"),
    }
}

#[test]
fn single_result_is_selected() {
    let ids = vec!["only".to_owned()];
    match decide_clipboard(&ids) {
        ClipboardDecision::Copy { url, count } => {
            assert_eq!(url, "https://www.youtube.com/watch?v=only".to_owned());
            assert_eq!(count, 1);
        },
        ClipboardDecision::NoResults => panic!("a non-empty result set must be copied"),
    }
}

#[test]
fn empty_result_set_is_never_written() {
    let ids: Vec<String> = Vec::new();
    assert!(matches!(decide_clipboard(&ids), ClipboardDecision::NoResults));
}

#[test]
fn video_ids_extracts_in_order() {
    let items = vec![video("v1"), video("v2"), video("v3")];
    assert_eq!(
        video_ids(&items),
        Ok(vec!["v1".to_owned(), "v2".to_owned(), "v3".to_owned()])
    );
}

#[test]
fn unexpected_item_shape_is_a_typed_error() {
    let items = vec![video("v1"), SearchItem::Other];
    assert_eq!(video_ids(&items), Err(SearchError::UnexpectedItemKind));
    assert!(matches!(process_results(&items), Err(SearchError::UnexpectedItemKind)));
}

#[test]
fn process_results_copies_first_of_many() {
    let items = vec![video("v1"), video("v2")];
    match process_results(&items) {
        Ok(ClipboardDecision::Copy { url, count }) => {
            assert_eq!(url, "https://www.youtube.com/watch?v=v1".to_owned());
            assert_eq!(count, 2);
        },
        _ => panic!("two video items must yield a copy of the first"),
    }
}

#[test]
fn process_results_reports_nothing_found() {
    let items: Vec<SearchItem> = Vec::new();
    assert!(matches!(process_results(&items), Ok(ClipboardDecision::NoResults)));
}
