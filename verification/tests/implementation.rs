use libherald::implementation::attachments::{Attachments, AttachmentsSignal};
use libherald::implementation::config::{Config, ConfigSignal};
use libherald::implementation::contacts::Contacts as FilteredContacts;
use libherald::implementation::conversation::{Conversation, ConversationMeta, ConversationSignal, Message as ConvMessage};
use libherald::implementation::conversations::Conversations;
use libherald::implementation::heraldstate::HeraldState;
use libherald::implementation::heraldutils::HeraldUtils;
use libherald::implementation::members::{MemberUpdate, Members as OldMembers};
use libherald::implementation::message_builder::MessageBuilder;
use libherald::implementation::messages::{Messages, MessagesSignal, MsgUpdate, PollStep, StoredMsg};
use libherald::implementation::users::{Contact, ContactStatus, Users as OldUsers};
use libherald::implementation::{Contacts, ContactsItem};
use libherald::signal::ModelCall;

fn stored(id: u8, author: &str, body: &str) -> StoredMsg {
    StoredMsg {
        message_id: [id; 32],
        author: author.to_string(),
        body: Some(body.to_string()),
        op: None,
        timestamp: 1000 + id as i64,
        receipts: vec![],
        has_attachments: false,
    }
}

#[test]
fn classic_messages_poll_in_arrival_order() {
    let mut m = Messages::new("me".to_string());
    assert!(m.poll(MsgUpdate::Msg(stored(1, "a", "x"))) == PollStep::Stop);
    assert_eq!(m.set_conversation_id(Some(&[4; 32])), Some([4; 32]));
    assert_eq!(m.signals, vec![MessagesSignal::ConversationIdChanged]);
    assert!(m.set_conversation_id(Some(&[5; 32])).is_none());
    m.fill_messages(vec![stored(1, "a", "first")]);
    assert!(m.poll(MsgUpdate::Msg(stored(2, "me", "second"))) == PollStep::Continue);
    assert!(m.poll(MsgUpdate::FullMsg(stored(3, "me", "third"))) == PollStep::Activity([4; 32]));
    assert_eq!(m.row_count(), 3);
    assert!(m.data_saved(1));
    assert!(!m.data_saved(2));
    assert_eq!(m.last_author(), Some("You"));
    assert_eq!(m.last_body(), Some("third"));
    assert_eq!(m.last_epoch_timestamp_ms(), Some(1003));
    assert!(m.poll(MsgUpdate::StoreDone([3; 32])) == PollStep::Continue);
    assert!(m.data_saved(2));
    assert!(m.poll(MsgUpdate::StoreDone([9; 32])) == PollStep::Stop);
    assert!(m.poll(MsgUpdate::Receipt([9; 32], Some(vec![2]))) == PollStep::Continue);
    assert!(m.poll(MsgUpdate::Receipt([1; 32], None)) == PollStep::Stop);
    assert!(m.poll(MsgUpdate::Receipt([1; 32], Some(vec![1, 2]))) == PollStep::Continue);
    assert_eq!(m.receipt_status(0), 2);
    assert_eq!(m.receipt_status(1), 0);
    assert_eq!(m.index_by_id(&[2; 32]), 1);
    assert_eq!(m.index_by_id(&[8; 32]), u64::MAX);
    assert_eq!(m.index_by_id(&[8; 3]), u32::MAX as u64);
    assert_eq!(m.author(0), Some("a"));
    assert_eq!(m.message_body_by_id(&[1; 32]), "first");
    assert_eq!(m.message_body_by_id(&[7; 32]), "");
    assert_eq!(m.message_author_by_id(&[2; 32]), Some("me".to_string()));
    assert!(!m.is_reply(0));
    assert_eq!(m.epoch_timestamp_ms(9), 0);
    assert!(m.calls.contains(&ModelCall::DataChanged { first: 2, last: 2 }));
}

#[test]
fn classic_messages_delete_only_after_storage() {
    let mut m = Messages::new("me".to_string());
    m.set_conversation_id(Some(&[4; 32]));
    m.raw_insert(stored(1, "a", "x"), true).ok().unwrap();
    assert!(!m.delete_message(0, false));
    assert!(!m.delete_message(3, true));
    assert!(m.delete_message(0, true));
    assert_eq!(m.row_count(), 0);
    assert!(m.clear_conversation_history(true));
    assert!(!m.clear_conversation_history(false));
}

fn meta(id: u8, pairwise: bool) -> ConversationMeta {
    ConversationMeta {
        conversation_id: [id; 32],
        title: Some(format!("t{}", id)),
        picture: None,
        color: 1,
        muted: false,
        pairwise,
    }
}

fn conv_msg(id: u8) -> ConvMessage {
    ConvMessage {
        author: "a".to_string(),
        body: format!("b{}", id),
        conversation: [1; 32],
        message_id: [id; 32],
        op: None,
        timestamp: id as i64,
    }
}

#[test]
fn a_conversation_view_switches_and_refreshes() {
    let mut c = Conversation::new("me".to_string(), 0);
    c.set_conversation_id(Some(&[1; 32]), Some(meta(1, false)), Some(vec![conv_msg(1), conv_msg(2)]));
    assert_eq!(c.row_count(), 2);
    assert_eq!(c.title(), Some("t1"));
    assert_eq!(c.signals, vec![ConversationSignal::ConversationIdChanged]);
    c.set_conversation_id(Some(&[1; 32]), Some(meta(1, false)), Some(vec![]));
    assert_eq!(c.row_count(), 2);
    assert!(!c.refresh(None, 10));
    assert!(c.refresh(Some(vec![conv_msg(3)]), 10));
    assert_eq!(c.updated, 10);
    assert_eq!(c.body(2), "b3");
    assert_eq!(c.insert_message("hello".to_string(), Some(([9; 32], 77)), 20), Some([9; 32]));
    assert_eq!(c.author(3), "me");
    assert_eq!(c.epoch_timestamp_ms(3), 77);
    assert_eq!(c.reply("re".to_string(), &[9; 32], None, 30), None);
    assert_eq!(c.updated, 30);
    assert_eq!(c.reply("re".to_string(), &[9; 2], Some(([8; 32], 1)), 40), None);
    assert_eq!(c.updated, 30);
    c.set_color(7, false);
    assert_eq!(c.color(), 1);
    c.set_color(7, true);
    assert_eq!(c.color(), 7);
    assert!(c.delete_message(0, true));
    assert_eq!(c.row_count(), 3);
    c.set_conversation_id(None, None, None);
    assert_eq!(c.row_count(), 0);
    assert!(c.conversation_id().is_some());
    assert!(c.delete_conversation(true));
    assert!(c.conversation_id().is_none());
}

#[test]
fn pairwise_conversations_cannot_be_removed() {
    let mut cs = Conversations::new(vec![meta(1, true), meta(2, false)]);
    assert!(!cs.remove_conversation(0, true));
    assert!(!cs.remove_conversation(1, false));
    assert!(cs.remove_conversation(1, true));
    assert_eq!(cs.row_count(), 1);
    assert_eq!(cs.add_conversation(Some(meta(3, false)), true), Some([3; 32]));
    assert_eq!(cs.conversation_id(0), &[3; 32]);
    assert_eq!(cs.add_conversation(None, true), None);
    cs.set_filter("t".to_string(), true, &vec![true, false]);
    assert!(cs.matched(0));
    assert!(!cs.matched(1));
    cs.clear_filter();
    assert!(cs.matched(1));
    assert!(cs.set_title(0, None, true));
    assert_eq!(cs.title(0), None);
}

#[test]
fn first_contact_list_keeps_newest_first() {
    let mut c = Contacts::new(Some(vec![ContactsItem { contact_id: 1, name: "a".to_string() }]));
    assert_eq!(c.add("b".to_string(), Some(2)), 2);
    assert_eq!(c.add("c".to_string(), None), -1);
    assert_eq!(c.row_count(), 2);
    assert_eq!(c.contact_id(0), 2);
    assert_eq!(c.name(1), "a");
    assert!(c.update(1, "aa".to_string(), true));
    assert_eq!(c.name(1), "aa");
    assert!(!c.update(5, "x".to_string(), true));
    assert!(!c.remove(2, false));
    assert!(c.remove(2, true));
    assert_eq!(c.row_count(), 1);
    assert!(c.set_name(0, "z".to_string()));
    assert_eq!(c.name(0), "z");
}

fn contact(id: &str, name: Option<&str>) -> Contact {
    Contact {
        id: id.to_string(),
        name: name.map(|n| n.to_string()),
        pairwise_conversation: [2; 32],
        profile_picture: None,
        color: 0,
        status: ContactStatus::Active,
    }
}

#[test]
fn filtered_contacts_match_by_name_or_id() {
    let mut c = FilteredContacts::new(Some(vec![contact("bob", Some("Bobby")), contact("al", None)]));
    c.set_filter("x".to_string(), true, &vec![(false, false), (false, false)]);
    assert!(!c.matched(0));
    assert!(c.matched(1));
    c.set_filter("x".to_string(), true, &vec![(false, true), (false, false)]);
    assert!(c.matched(0));
    let long = "x".repeat(300);
    assert_eq!(c.add(&long, Some(contact("z", None)), &vec![(true, true); 3]), None);
    assert_eq!(c.add("z", Some(contact("z", None)), &vec![(true, true); 3]), Some([2; 32]));
    assert_eq!(c.row_count(), 3);
    assert_eq!(c.contact_id(0), "z");
    assert!(c.set_status(0, 1, true));
    assert_eq!(c.status(0), 1);
    assert!(!c.set_status(0, 5, true));
}

#[test]
fn toggling_the_contact_filter_flips_the_mode_either_way() {
    let mut c = FilteredContacts::new(Some(vec![contact("bob", Some("Bobby")), contact("al", None)]));
    c.set_filter("x".to_string(), true, &vec![(false, true), (false, false)]);
    let before = c.signals.len();
    assert!(c.toggle_filter_regex(false, &vec![(true, true), (true, true)]));
    assert!(c.filter_regex);
    assert_eq!(c.filter(), "x");
    assert!(c.matched(0));
    assert!(c.matched(1));
    assert_eq!(c.signals.len(), before + 1);
    assert!(!c.toggle_filter_regex(true, &vec![(true, true), (true, true)]));
    assert!(!c.filter_regex);
    assert!(c.matched(0));
    assert_eq!(c.signals.len(), before + 2);
}

#[test]
fn classic_users_and_members() {
    let mut u = OldUsers::new(Some(vec![contact("a", None)]));
    assert_eq!(u.add(&contact("b", Some("Bee")), true), [2; 32]);
    assert_eq!(u.user_id(1), "b");
    assert_eq!(u.display_name(1, Some(&contact("b", Some("Bee")))), "Bee");
    assert_eq!(u.display_name(0, Some(&contact("a", None))), "a");
    let gone = u.set_status(1, 2, Some(contact("b", None)), true).unwrap();
    assert_eq!(gone.status, ContactStatus::Deleted);
    assert_eq!(u.row_count(), 1);
    let mut m = OldMembers::new();
    m.set_conversation_id(Some(&[3; 32]), Some(vec![contact("a", None), contact("b", None)]));
    assert_eq!(m.row_count(), 2);
    assert!(m.conversation_id().is_none());
    assert!(!m.poll_update(&MemberUpdate::ReqResp("c".to_string(), true), Some(true)));
    assert!(!m.add_to_conversation("c".to_string(), true, Some(&contact("c", None)), true));
}

#[test]
fn classic_builder_attachments() {
    let mut b = MessageBuilder::new();
    assert!(b.add_attachment("a.png".to_string()));
    assert!(b.add_attachment("b.png".to_string()));
    assert!(b.add_attachment("a.png".to_string()));
    assert!(b.remove_attachment("a.png".to_string()));
    assert_eq!(b.attachment_path(0), "a.png");
    assert_eq!(b.attachment_path(1), "b.png");
    assert!(!b.remove_attachment("c.png".to_string()));
    assert!(!b.remove_attachment_by_index(0));
    b.remove_last();
    assert_eq!(b.row_count(), 1);
    b.set_replying_to(Some(&[4; 32]));
    assert_eq!(b.replying_to(), Some(&[4; 32]));
    b.set_conversation_id(Some(&[5; 32]));
    assert_eq!(b.conversation_id(), Some(&[5; 32]));
    let m = b.finalize().unwrap();
    assert_eq!(m.attachments, vec!["a.png".to_string()]);
    assert!(!b.add_attachment("x".to_string()));
    assert_eq!(b.row_count(), 0);
}

#[test]
fn attachments_bind_once() {
    let mut a = Attachments::new();
    a.set_msg_id(Some(&[1; 32]), Some(vec!["p".to_string()]));
    assert_eq!(a.row_count(), 1);
    assert_eq!(a.signals, vec![AttachmentsSignal::MsgIdChanged]);
    a.set_msg_id(Some(&[2; 32]), Some(vec![]));
    assert_eq!(a.msg_id(), Some(&[1; 32]));
    assert_eq!(a.attachment_path(0), "p");
    assert_eq!(a.attachment_path(1), "");
}

#[test]
fn config_and_state() {
    let mut c = Config {
        signals: vec![],
        id: "me".to_string(),
        name: None,
        profile_picture: None,
        color: 0,
        colorscheme: 0,
    };
    assert_eq!(c.display_name(), "me");
    c.set_name(Some("Me".to_string()), false);
    assert_eq!(c.signals, vec![ConfigSignal::DisplayNameChanged]);
    c.set_name(Some("Me".to_string()), true);
    assert_eq!(c.display_name(), "Me");
    let mut s = HeraldState::new(false);
    s.set_config_init(true);
    s.set_config_init(false);
    assert!(s.config_init());
    let u = HeraldUtils;
    assert!(u.compare_byte_array(&[1, 2], &[1, 2]));
    assert!(!u.compare_byte_array(&[1, 2], &[1]));
    assert!(u.is_valid_rand_id(&[0; 32]));
    assert!(!u.is_valid_rand_id(&[0; 31]));
}
