use libherald::interface::message_search::{MessageSearchEmitter, MessageSearchList};
use libherald::message_search::{MessageSearch, ResultBody, SearchResult};
use libherald::signal::ModelCall;

fn result(n: u8) -> SearchResult {
    SearchResult {
        author: format!("user{}", n),
        body: ResultBody {
            before_first: "a ".to_string(),
            first_match: "cat".to_string(),
            after_first: format!(" {}", n),
        },
        conversation: [n; 32],
        message_id: [n; 32],
        time: n as i64,
    }
}

fn search() -> MessageSearch {
    MessageSearch::new(MessageSearchEmitter::new(1), MessageSearchList::new(1))
}

#[test]
fn a_new_pattern_starts_in_normal_mode() {
    let mut s = search();
    assert_eq!(s.regex_search(), None);
    let start = s.set_search_pattern(Some("cat".to_string()), true).unwrap();
    assert_eq!(start.raw, "cat");
    assert!(!start.regex);
    assert_eq!(s.search_pattern(), Some("cat"));
    assert_eq!(s.regex_search(), Some(false));
}

#[test]
fn empty_or_missing_pattern_clears() {
    let mut s = search();
    s.set_search_pattern(Some("cat".to_string()), true);
    s.add_results(vec![result(1)]);
    assert!(s.set_search_pattern(Some(String::new()), true).is_none());
    assert_eq!(s.row_count(), 0);
    assert_eq!(s.search_pattern(), None);
    s.set_search_pattern(Some("dog".to_string()), true);
    assert!(s.set_search_pattern(None, true).is_none());
    assert_eq!(s.search_pattern(), None);
}

#[test]
fn a_pattern_that_does_not_compile_drops_the_pattern() {
    let mut s = search();
    s.set_search_pattern(Some("cat".to_string()), true);
    assert!(s.set_search_pattern(Some("(".to_string()), false).is_none());
    assert_eq!(s.search_pattern(), None);
}

#[test]
fn batches_overwrite_stale_rows_and_finishing_drops_the_rest() {
    let mut s = search();
    s.set_search_pattern(Some("cat".to_string()), true);
    s.add_results(vec![result(1), result(2), result(3)]);
    s.finish();
    assert_eq!(s.row_count(), 3);
    s.set_search_pattern(Some("cats".to_string()), true);
    assert_eq!(s.row_count(), 3);
    s.add_results(vec![result(9)]);
    assert_eq!(s.row_count(), 3);
    assert_eq!(s.author(0), Some("user9"));
    assert_eq!(s.author(1), Some("user2"));
    s.finish();
    assert_eq!(s.row_count(), 1);
    assert_eq!(s.first_match(0), "cat");
    assert_eq!(s.after_first_match(0), " 9");
    assert_eq!(s.before_first_match(5), "");
    assert_eq!(s.time(0), Some(9));
    assert_eq!(s.msg_id(0), Some(&[9u8; 32]));
    assert_eq!(s.conversation(1), None);
    assert_eq!(s.author(1), None);
}

#[test]
fn switching_to_regex_restarts_the_search() {
    let mut s = search();
    s.set_search_pattern(Some("ca.".to_string()), true);
    s.add_results(vec![result(1)]);
    let start = s.set_regex_search(Some(true), true).unwrap();
    assert!(start.regex);
    assert_eq!(start.raw, "ca.");
    assert_eq!(s.row_count(), 0);
    assert_eq!(s.regex_search(), Some(true));
    assert!(s.set_regex_search(Some(true), true).is_none());
    assert_eq!(s.regex_search(), None);
}

#[test]
fn switching_back_to_normal_keeps_no_pattern() {
    let mut s = search();
    s.set_search_pattern(Some("ca.".to_string()), true);
    s.set_regex_search(Some(true), true);
    let start = s.set_regex_search(Some(false), true).unwrap();
    assert!(!start.regex);
    assert_eq!(s.regex_search(), None);
    assert!(s.set_regex_search(None, true).is_none());
}

#[test]
fn a_batch_redraws_stale_rows_and_appends_the_rest() {
    let mut s = search();
    s.set_search_pattern(Some("cat".to_string()), true);
    s.add_results(vec![result(1), result(2)]);
    s.set_search_pattern(Some("dog".to_string()), true);
    let _ = s.model.take_calls();
    s.add_results(vec![result(3), result(4), result(5)]);
    let calls = s.model.take_calls();
    assert_eq!(
        calls,
        vec![
            ModelCall::DataChanged { first: 0, last: 0 },
            ModelCall::DataChanged { first: 1, last: 1 },
            ModelCall::BeginInsertRows { first: 2, last: 2 },
            ModelCall::EndInsertRows,
        ]
    );
    assert_eq!(s.row_count(), 3);
}
