use libherald::interface::messages::{MessagesEmitter, MessagesList};
use libherald::interface::message_builder::MessageBuilderEmitter;
use libherald::messages::builder::MessageBuilder;
use libherald::messages::container::Container;
use libherald::messages::types::{MessageTime, Msg, ReplyId, SaveStatus};
use libherald::messages::Messages;

fn msg(id: u8, time: i64, author: &str, body: &str) -> Msg {
    Msg {
        message_id: [id; 32],
        author: author.to_string(),
        body: Some(body.to_string()),
        time: MessageTime { insertion: time, server: None, expiration: None },
        op: ReplyId::NoReply,
        receipts: Vec::new(),
        replies: Vec::new(),
        has_attachments: false,
        send_status: 0,
    }
}

fn messages() -> Messages {
    let builder = MessageBuilder::new(MessageBuilderEmitter::new(1));
    Messages::new_(MessagesEmitter::new(1), MessagesList::new(1), builder, Some("me".to_string()))
}

#[test]
fn container_keeps_time_order() {
    let c = Container::from_msgs(vec![msg(1, 10, "a", "x"), msg(2, 20, "a", "y"), msg(3, 30, "b", "z")]);
    assert_eq!(c.len(), 3);
    assert_eq!(c.index_by_id([2; 32]), Some(1));
    assert_eq!(c.index_by_id([9; 32]), None);
    assert_eq!(c.get(2).map(|m| m.insertion_time), Some(30));
}

#[test]
fn insert_then_remove_gives_back_the_data() {
    let mut m = messages();
    assert!(m.set_conversation_id_(Some(&[7u8; 32])).is_some());
    let r = m.insert_helper(msg(1, 100, "me", "hello"), SaveStatus::Saved, false);
    assert_eq!(r.ok(), Some(Some([7u8; 32])));
    assert_eq!(m.row_count(), 1);
    assert_eq!(m.last_author_(), Some("You"));
    assert_eq!(m.last_body(), Some("hello"));
    assert_eq!(m.delete_message_(0, false), Some([1u8; 32]));
    assert_eq!(m.row_count(), 0);
    assert!(m.is_empty());
}

#[test]
fn insert_without_conversation_fails() {
    let mut m = messages();
    assert!(m.insert_helper(msg(1, 100, "me", "hello"), SaveStatus::Saved, false).is_err());
    assert_eq!(m.row_count(), 0);
}

use libherald::interface::messages::MessagesSignal;
use libherald::messages::builder::OpChanged;
use libherald::messages::types::{max_receipt_status, reply_type, MatchStatus, ReplyType};
use libherald::messages::{fill, FetchStep, MsgUpdate};
use libherald::messages::search::SearchMachine;
use libherald::signal::ModelCall;

fn bound_messages() -> Messages {
    let mut m = messages();
    m.set_conversation_id_(Some(&[7u8; 32]));
    m
}

#[test]
fn binding_takes_only_a_32_byte_id_once() {
    let mut m = messages();
    assert!(m.set_conversation_id_(Some(&[1u8; 31])).is_none());
    assert!(m.set_conversation_id_(None).is_none());
    assert_eq!(m.set_conversation_id_(Some(&[2u8; 32])), Some([2u8; 32]));
    assert!(m.set_conversation_id_(Some(&[3u8; 32])).is_none());
    assert_eq!(m.conversation_id, Some([2u8; 32]));
}

#[test]
fn out_of_order_messages_land_in_time_order() {
    let mut m = bound_messages();
    m.insert_helper(msg(1, 300, "a", "third"), SaveStatus::Saved, false).ok().unwrap();
    m.insert_helper(msg(2, 100, "a", "first"), SaveStatus::Saved, false).ok().unwrap();
    m.insert_helper(msg(3, 200, "b", "second"), SaveStatus::Saved, false).ok().unwrap();
    assert_eq!(m.body(0), Some("first"));
    assert_eq!(m.body(1), Some("second"));
    assert_eq!(m.body(2), Some("third"));
    assert_eq!(m.index_by_id_(&[3u8; 32]), 1);
    assert_eq!(m.index_by_id_(&[9u8; 32]), u32::MAX as u64);
    assert_eq!(m.index_by_id_(&[3u8; 5]), u32::MAX as u64);
    assert_eq!(m.insertion_time(2), Some(300));
    assert_eq!(m.insertion_time(3), None);
}

#[test]
fn same_insertion_time_is_dropped() {
    let mut m = bound_messages();
    m.insert_helper(msg(1, 300, "a", "x"), SaveStatus::Saved, false).ok().unwrap();
    m.insert_helper(msg(2, 400, "a", "y"), SaveStatus::Saved, false).ok().unwrap();
    let r = m.insert_helper(msg(3, 300, "a", "z"), SaveStatus::Saved, false);
    assert_eq!(r.ok(), Some(None));
    assert_eq!(m.row_count(), 2);
}

#[test]
fn reply_to_missing_message_fails() {
    let mut m = bound_messages();
    let mut reply = msg(1, 100, "a", "re");
    reply.op = ReplyId::Known([9u8; 32]);
    assert!(m.insert_helper(reply, SaveStatus::Saved, false).is_err());
    assert_eq!(m.row_count(), 0);
}

#[test]
fn deleting_the_replied_message_makes_replies_dangling() {
    let mut m = bound_messages();
    m.insert_helper(msg(1, 100, "a", "orig"), SaveStatus::Saved, false).ok().unwrap();
    let mut reply = msg(2, 200, "b", "re");
    reply.op = ReplyId::Known([1u8; 32]);
    m.insert_helper(reply, SaveStatus::Saved, false).ok().unwrap();
    assert_eq!(m.container.op_reply_type(1), Some(ReplyType::Known));
    assert_eq!(m.op_body_(1), Some("orig"));
    assert_eq!(m.delete_message_(0, false), Some([1u8; 32]));
    assert_eq!(m.container.op_reply_type(0), Some(ReplyType::Dangling));
    assert_eq!(m.op_body_(0), None);
}

#[test]
fn flurries_are_by_author_and_time() {
    let mut m = bound_messages();
    m.insert_helper(msg(1, 0, "a", "1"), SaveStatus::Saved, false).ok().unwrap();
    m.insert_helper(msg(2, 1000, "a", "2"), SaveStatus::Saved, false).ok().unwrap();
    m.insert_helper(msg(3, 400_000, "a", "3"), SaveStatus::Saved, false).ok().unwrap();
    m.insert_helper(msg(4, 400_500, "b", "4"), SaveStatus::Saved, false).ok().unwrap();
    assert_eq!(m.is_head_(0), Some(true));
    assert_eq!(m.is_tail_(0), Some(false));
    assert_eq!(m.is_head_(1), Some(false));
    assert_eq!(m.is_tail_(1), Some(true));
    assert_eq!(m.is_head_(2), Some(true));
    assert_eq!(m.is_tail_(2), Some(true));
    assert_eq!(m.is_tail_(3), Some(true));
    assert_eq!(m.is_tail_(4), None);
    assert_eq!(messages().is_head_(0), None);
}

#[test]
fn receipts_and_saves_arrive_as_updates() {
    let mut m = bound_messages();
    let step = m.fetch_update(MsgUpdate::BuilderMsg(msg(1, 100, "me", "hi")), &vec![false]);
    assert!(step == FetchStep::Activity([7u8; 32]));
    assert_eq!(m.data_saved(0), Some(false));
    assert_eq!(m.receipt_status_(0), Some(0));
    let step = m.fetch_update(MsgUpdate::Receipt([1u8; 32], vec![1, 3, 2]), &vec![]);
    assert!(step == FetchStep::Continue);
    assert_eq!(m.receipt_status_(0), Some(3));
    assert_eq!(m.last_status_(), Some(3));
    assert!(m.fetch_update(MsgUpdate::StoreDone([1u8; 32]), &vec![]) == FetchStep::Continue);
    assert_eq!(m.data_saved(0), Some(true));
    assert!(m.fetch_update(MsgUpdate::StoreDone([5u8; 32]), &vec![]) == FetchStep::Stop);
    assert!(m.fetch_update(MsgUpdate::NewMsg(msg(1, 500, "x", "dup")), &vec![false]) == FetchStep::Activity([7u8; 32]));
    assert_eq!(m.row_count(), 2);
    assert_eq!(m.body(0), Some("dup"));
    assert!(m.fetch_update(MsgUpdate::ExpiredMessages(vec![[1u8; 32], [8u8; 32]]), &vec![false, false]) == FetchStep::Continue);
    assert_eq!(m.row_count(), 1);
    assert_eq!(m.insertion_time(0), Some(100));
    assert_eq!(m.body(0), None);
}

#[test]
fn fill_needs_time_order() {
    assert!(fill(vec![msg(1, 10, "a", "x"), msg(2, 5, "a", "y")]).is_none());
    let dup = fill(vec![msg(1, 10, "a", "x"), msg(1, 20, "a", "y")]).unwrap();
    let mut d = bound_messages();
    assert!(d.fetch_update(dup, &vec![]) == FetchStep::Continue);
    assert_eq!(d.row_count(), 2);
    assert_eq!(d.body(0), Some("y"));
    let u = fill(vec![msg(1, 10, "a", "x"), msg(2, 20, "a", "y")]).unwrap();
    let mut m = bound_messages();
    assert!(m.fetch_update(u, &vec![]) == FetchStep::Continue);
    assert_eq!(m.row_count(), 2);
    assert_eq!(m.last_time(), Some(20));
    assert_eq!(m.data_saved(1), Some(true));
}

#[test]
fn search_focuses_matches_in_turn() {
    let mut m = bound_messages();
    m.insert_helper(msg(1, 100, "a", "cat"), SaveStatus::Saved, false).ok().unwrap();
    m.insert_helper(msg(2, 200, "a", "dog"), SaveStatus::Saved, false).ok().unwrap();
    m.insert_helper(msg(3, 300, "a", "cat again"), SaveStatus::Saved, false).ok().unwrap();
    m.set_search_pattern_("cat".to_string(), true, &vec![true, false, true]);
    m.set_search_active_(true, &vec![true, false, true]);
    assert!(m.search_active());
    assert_eq!(m.search_num_matches(), 2);
    assert_eq!(m.match_status(1), Some(0));
    assert_eq!(m.next_search_match(), 0);
    assert_eq!(m.search_index(), 1);
    assert_eq!(m.match_status(0), Some(2));
    assert_eq!(m.next_search_match(), 2);
    assert_eq!(m.match_status(0), Some(1));
    assert_eq!(m.prev_search_match(), 0);
    m.clear_search_();
    assert_eq!(m.search_num_matches(), 0);
    assert_eq!(m.match_status(0), Some(0));
    assert_eq!(m.search_pattern_(), "");
}

#[test]
fn builder_reply_follows_the_list() {
    let mut m = bound_messages();
    m.insert_helper(msg(1, 100, "a", "orig"), SaveStatus::Saved, false).ok().unwrap();
    assert!(m.set_builder_op_msg_id_(Some(&[1u8; 3])).is_err());
    assert_eq!(m.set_builder_op_msg_id_(Some(&[1u8; 32])).ok(), Some(OpChanged::Changed));
    assert_eq!(m.set_builder_op_msg_id_(Some(&[1u8; 32])).ok(), Some(OpChanged::NotChanged));
    assert_eq!(m.builder.op.as_ref().map(|r| r.author.clone()), Some("a".to_string()));
    m.delete_message_(0, false);
    assert!(m.builder.op.is_none());
}

#[test]
fn clearing_history_empties_the_list() {
    let mut m = messages();
    assert!(m.clear_conversation_history_().is_none());
    let mut m = bound_messages();
    m.insert_helper(msg(1, 100, "a", "x"), SaveStatus::Saved, false).ok().unwrap();
    assert_eq!(m.clear_conversation_history_(), Some([7u8; 32]));
    assert!(m.is_empty());
    let pending = m.emit.take_pending();
    assert!(pending.iter().any(|e| e.signal == MessagesSignal::IsEmptyChanged));
    let calls = m.model.take_calls();
    assert!(calls.contains(&ModelCall::BeginRemoveRows { first: 0, last: 0 }));
}

#[test]
fn receipt_status_is_the_highest() {
    assert_eq!(max_receipt_status(&vec![]), None);
    assert_eq!(max_receipt_status(&vec![2, 5, 1]), Some(5));
    assert_eq!(reply_type(&ReplyId::NoReply), ReplyType::NoReply);
    assert_eq!(MatchStatus::Focused.code(), 2);
    assert_eq!(ReplyType::Dangling.code(), 1);
}

#[test]
fn search_machine_switches_mode_when_the_text_compiles() {
    let mut s = SearchMachine::new();
    assert!(!s.is_regex());
    assert!(s.set_regex(true, false).is_err());
    assert!(!s.is_regex());
    assert!(s.set_regex(true, true).ok().unwrap().changed());
    assert!(s.is_regex());
    assert!(!s.set_regex(true, true).ok().unwrap().changed());
}

use libherald::messages::types::split_msg;

#[test]
fn inserting_then_removing_gives_the_container_back() {
    let mut c = Container::from_msgs(vec![msg(1, 10, "a", "x"), msg(2, 30, "a", "y")]);
    let (key, data) = split_msg(msg(3, 20, "b", "z"), SaveStatus::Unsaved);
    assert!(c.insert(1, key, data).is_some());
    assert_eq!(c.len(), 3);
    assert_eq!(c.index_by_id([3; 32]), Some(1));
    assert_eq!(c.index_by_id([2; 32]), Some(2));
    let back = c.remove(1).unwrap();
    assert_eq!(back.body, Some("z".to_string()));
    assert_eq!(back.save_status, SaveStatus::Unsaved);
    assert_eq!(c.len(), 2);
    assert!(!c.contains(&[3; 32]));
    assert_eq!(c.index_by_id([2; 32]), Some(1));
    assert!(c.remove(5).is_none());
}

#[test]
fn shared_insertion_times_confuse_the_lookup_by_id() {
    let c = Container::from_msgs(vec![msg(1, 10, "a", "x"), msg(2, 10, "a", "y")]);
    assert_eq!(c.index_by_id([1; 32]), Some(1));
    assert_eq!(c.index_by_id([2; 32]), Some(1));
}

#[test]
fn a_held_message_id_goes_in_again_with_the_new_data() {
    let mut m = bound_messages();
    m.insert_helper(msg(1, 100, "a", "first"), SaveStatus::Saved, false).ok().unwrap();
    let _ = m.model.take_calls();
    let r = m.insert_helper(msg(1, 200, "a", "again"), SaveStatus::Unsaved, false);
    assert_eq!(r.ok(), Some(Some([7u8; 32])));
    assert_eq!(m.row_count(), 2);
    assert_eq!(m.insertion_time(0), Some(100));
    assert_eq!(m.insertion_time(1), Some(200));
    assert_eq!(m.body(0), Some("again"));
    assert_eq!(m.body(1), Some("again"));
    let calls = m.model.take_calls();
    assert_eq!(calls[0], ModelCall::BeginInsertRows { first: 1, last: 1 });
    assert_eq!(calls[1], ModelCall::EndInsertRows);
    m.delete_message_(0, false);
    assert_eq!(m.row_count(), 1);
    assert_eq!(m.body(0), None);
}

#[test]
fn expiry_keeps_the_other_messages_in_order() {
    let mut m = bound_messages();
    m.insert_helper(msg(1, 100, "a", "x"), SaveStatus::Saved, false).ok().unwrap();
    m.insert_helper(msg(2, 200, "a", "y"), SaveStatus::Saved, false).ok().unwrap();
    m.insert_helper(msg(3, 300, "a", "z"), SaveStatus::Saved, false).ok().unwrap();
    m.handle_expiration(vec![[2u8; 32]], &vec![false]);
    assert_eq!(m.row_count(), 2);
    assert_eq!(m.body(0), Some("x"));
    assert_eq!(m.body(1), Some("z"));
}

#[test]
fn an_insert_tells_the_view_of_its_row_first() {
    let mut m = bound_messages();
    m.insert_helper(msg(1, 100, "a", "x"), SaveStatus::Saved, false).ok().unwrap();
    m.insert_helper(msg(3, 300, "a", "z"), SaveStatus::Saved, false).ok().unwrap();
    let _ = m.model.take_calls();
    m.insert_helper(msg(2, 200, "a", "y"), SaveStatus::Saved, false).ok().unwrap();
    let calls = m.model.take_calls();
    assert_eq!(calls[0], ModelCall::BeginInsertRows { first: 1, last: 1 });
    assert_eq!(calls[1], ModelCall::EndInsertRows);
    assert_eq!(m.insertion_time(1), Some(200));
}

#[test]
fn a_reply_records_itself_and_dangles_when_its_message_goes() {
    let mut m = bound_messages();
    m.insert_helper(msg(1, 100, "a", "orig"), SaveStatus::Saved, false).ok().unwrap();
    let mut reply = msg(2, 200, "b", "re");
    reply.op = ReplyId::Known([1u8; 32]);
    m.insert_helper(reply, SaveStatus::Saved, false).ok().unwrap();
    assert_eq!(m.container.msg_data(0).unwrap().replies, vec![[2u8; 32]]);
    m.delete_message_(0, false);
    assert_eq!(m.row_count(), 1);
    assert!(matches!(m.container.msg_data(0).unwrap().op, ReplyId::Dangling));
}

#[test]
fn a_new_matching_message_joins_an_active_search() {
    let mut m = bound_messages();
    m.insert_helper(msg(1, 100, "a", "cat"), SaveStatus::Saved, false).ok().unwrap();
    m.set_search_pattern_("cat".to_string(), true, &vec![true]);
    m.set_search_active_(true, &vec![true]);
    assert_eq!(m.search_num_matches(), 1);
    let _ = m.emit.take_pending();
    m.insert_helper(msg(2, 200, "a", "cat two"), SaveStatus::Saved, true).ok().unwrap();
    assert_eq!(m.search_num_matches(), 2);
    assert_eq!(m.match_status(1), Some(1));
    let pending = m.emit.take_pending();
    assert!(pending.iter().any(|e| e.signal == MessagesSignal::SearchNumMatchesChanged));
    m.delete_message_(1, true);
    assert_eq!(m.search_num_matches(), 1);
}

#[test]
fn switching_the_search_off_resets_every_status() {
    let mut m = bound_messages();
    m.insert_helper(msg(1, 100, "a", "cat"), SaveStatus::Saved, false).ok().unwrap();
    m.set_search_pattern_("cat".to_string(), true, &vec![true]);
    m.set_search_active_(true, &vec![true]);
    assert_eq!(m.match_status(0), Some(1));
    let _ = m.emit.take_pending();
    m.set_search_active_(false, &vec![true]);
    assert_eq!(m.match_status(0), Some(0));
    assert_eq!(m.search_pattern_(), "");
    let signals: Vec<MessagesSignal> = m.emit.take_pending().iter().map(|e| e.signal).collect();
    assert_eq!(
        signals,
        vec![
            MessagesSignal::SearchIndexChanged,
            MessagesSignal::SearchPatternChanged,
            MessagesSignal::SearchRegexChanged,
            MessagesSignal::SearchNumMatchesChanged,
        ]
    );
}

#[test]
fn dropping_an_earlier_match_keeps_the_focus() {
    let mut m = bound_messages();
    m.insert_helper(msg(1, 100, "a", "cat"), SaveStatus::Saved, false).ok().unwrap();
    m.insert_helper(msg(2, 200, "a", "cat"), SaveStatus::Saved, false).ok().unwrap();
    m.insert_helper(msg(3, 300, "a", "cat"), SaveStatus::Saved, false).ok().unwrap();
    m.set_search_pattern_("cat".to_string(), true, &vec![true, true, true]);
    m.set_search_active_(true, &vec![true, true, true]);
    assert_eq!(m.next_search_match(), 0);
    assert_eq!(m.next_search_match(), 1);
    assert_eq!(m.next_search_match(), 2);
    assert_eq!(m.search_index(), 3);
    m.delete_message_(0, true);
    assert_eq!(m.search_num_matches(), 2);
    assert_eq!(m.search_index(), 2);
    assert_eq!(m.match_status(1), Some(2));
}

#[test]
fn a_message_goes_in_after_every_earlier_one() {
    let mut m = bound_messages();
    for (id, time) in [(1u8, 100i64), (2, 500), (3, 200), (4, 400)] {
        m.insert_helper(msg(id, time, "a", "x"), SaveStatus::Saved, false).ok().unwrap();
    }
    m.insert_helper(msg(5, 300, "b", "new"), SaveStatus::Saved, false).ok().unwrap();
    assert_eq!(m.index_by_id_(&[5u8; 32]), 2);
    assert_eq!(m.insertion_time(1), Some(200));
    assert_eq!(m.insertion_time(3), Some(400));
}

#[test]
fn a_search_over_a_repeated_id_finds_every_row() {
    let mut m = bound_messages();
    m.insert_helper(msg(1, 100, "a", "cat"), SaveStatus::Saved, false).ok().unwrap();
    m.insert_helper(msg(1, 200, "a", "cat"), SaveStatus::Saved, false).ok().unwrap();
    m.set_search_pattern_("cat".to_string(), true, &vec![true, true]);
    m.set_search_active_(true, &vec![true, true]);
    assert_eq!(m.search_num_matches(), 2);
    m.clear_search_();
    assert_eq!(m.search_num_matches(), 0);
    assert_eq!(m.match_status(0), Some(0));
    assert_eq!(m.match_status(1), Some(0));
}

#[test]
fn expiring_a_message_that_shares_its_time_takes_the_last_key_of_that_time() {
    let mut m = bound_messages();
    m.insert_helper(msg(1, 100, "a", "first"), SaveStatus::Saved, false).ok().unwrap();
    m.insert_helper(msg(2, 100, "a", "second"), SaveStatus::Saved, false).ok().unwrap();
    assert_eq!(m.row_count(), 2);
    m.handle_expiration(vec![[1u8; 32]], &vec![false]);
    assert_eq!(m.row_count(), 1);
    assert_eq!(m.body(0), Some("first"));
    m.handle_expiration(vec![[1u8; 32]], &vec![false]);
    assert_eq!(m.row_count(), 0);
}
