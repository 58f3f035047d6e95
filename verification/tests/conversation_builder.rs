use libherald::conversation_builder::ConversationBuilder;
use libherald::implementation::users::{Contact, ContactStatus};
use libherald::interface::conversation_builder::{ConversationBuilderEmitter, ConversationBuilderList};
use libherald::members::{MemberUpdate, Members};
use libherald::users::{UserData, UserStatus};

fn builder() -> ConversationBuilder {
    ConversationBuilder::new(ConversationBuilderEmitter::new(1), ConversationBuilderList::new(1), "me".to_string())
}

#[test]
fn members_are_added_once_and_only_contacts() {
    let mut b = builder();
    assert!(b.add_member("me".to_string(), false));
    assert_eq!(b.row_count(), 0);
    assert!(!b.add_member("stranger".to_string(), false));
    assert!(b.add_member("ann".to_string(), true));
    assert!(b.add_member("ann".to_string(), true));
    assert_eq!(b.row_count(), 1);
    assert_eq!(b.member_id(0), "ann");
    assert_eq!(b.member_id(3), "");
}

#[test]
fn adding_then_removing_a_member_restores_the_list() {
    let mut b = builder();
    b.add_member("ann".to_string(), true);
    b.add_member("ben".to_string(), true);
    assert!(b.remove_member_by_id(&"ben".to_string()));
    assert_eq!(b.row_count(), 1);
    assert!(!b.remove_member_by_id(&"ben".to_string()));
    assert!(!b.remove_member_by_index(4));
    assert!(b.remove_member_by_index(0));
    b.remove_last();
    assert_eq!(b.row_count(), 0);
}

#[test]
fn finalizing_adds_the_local_user() {
    let mut b = builder();
    b.add_member("ann".to_string(), true);
    b.set_title("chat".to_string());
    assert_eq!(b.title, Some("chat".to_string()));
    let members = b.finalize().clone();
    assert_eq!(members, vec!["ann".to_string(), "me".to_string()]);
    let ann = Contact {
        id: "ann".to_string(),
        name: None,
        pairwise_conversation: [0; 32],
        profile_picture: None,
        color: 4,
        status: ContactStatus::Active,
    };
    assert_eq!(b.member_display_name(0, Some(&ann)), "ann");
    assert_eq!(b.member_display_name(0, None), "");
    assert_eq!(b.member_color(0, Some(&ann)), 4);
    assert_eq!(b.member_color(9, Some(&ann)), 0);
}

fn user(id: &str) -> UserData {
    UserData {
        id: id.to_string(),
        name: id.to_uppercase(),
        pairwise_conversation: [0; 32],
        profile_picture: None,
        color: 0,
        status: UserStatus::Active,
    }
}

#[test]
fn members_of_a_conversation() {
    let mut m = Members::new();
    m.set_conversation_id(vec![user("a"), user("b")]);
    assert_eq!(m.row_count(), 2);
    assert_eq!(m.user_id(1), Some("b"));
    assert_eq!(m.name(1, Some(&user("b"))), "B");
    assert_eq!(m.name(1, None), "b");
    assert!(!m.add_to_conversation("c".to_string(), true, Some(true)));
    m.conversation_id = Some([1; 32]);
    assert!(m.add_to_conversation("c".to_string(), true, Some(false)));
    assert!(!m.matched(2));
    assert!(!m.add_to_conversation("d".to_string(), true, None));
    m.process_update(&MemberUpdate::ReqResp("e".to_string(), false), Some(true));
    assert_eq!(m.row_count(), 3);
    m.process_update(&MemberUpdate::ReqResp("e".to_string(), true), Some(true));
    assert_eq!(m.row_count(), 4);
    m.clear_filter();
    assert!(m.matched(2));
    assert!(m.remove_from_conversation_by_index(0, true));
    assert!(!m.remove_from_conversation_by_index(9, true));
}

#[test]
fn member_filter_without_a_pattern_starts_in_regex_mode() {
    let mut m = Members::new();
    m.filter = None;
    m.set_conversation_id(vec![user("a")]);
    m.set_filter("a.".to_string(), true, &vec![Some(true)]);
    assert_eq!(m.filter(), "a.");
    assert!(m.filter.as_ref().unwrap().regex);
}

#[test]
fn toggling_the_member_filter_always_flips_the_mode() {
    let mut m = Members::new();
    m.set_filter("x".to_string(), true, &vec![]);
    assert!(m.toggle_filter_regex(false, &vec![]));
    assert!(m.filter_regex);
    assert_eq!(m.filter(), "");
    assert!(!m.toggle_filter_regex(true, &vec![]));
    assert!(!m.filter_regex);
}
