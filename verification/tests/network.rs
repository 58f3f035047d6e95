use libherald::network::{classic_route, register_new_user, route, Delivery, Notification, RegisterResponse};

#[test]
fn a_message_goes_to_its_conversation() {
    let out = route(Notification::NewMsg([1; 32], [2; 32]));
    assert_eq!(out.len(), 1);
    assert!(matches!(out[0], Delivery::Message(c, m) if c == [2; 32] && m == [1; 32]));
    let out = route(Notification::MsgReceipt { mid: [3; 32], cid: [4; 32] });
    assert!(matches!(out[0], Delivery::Receipt(c, m) if c == [4; 32] && m == [3; 32]));
}

#[test]
fn a_new_contact_brings_a_user_and_a_conversation() {
    let out = route(Notification::NewContact("bob".to_string(), [5; 32]));
    assert_eq!(out.len(), 2);
    assert!(matches!(&out[0], Delivery::NewUser(u) if u == "bob"));
    assert!(matches!(out[1], Delivery::NewConversation(c) if c == [5; 32]));
}

#[test]
fn a_refused_contact_request_brings_no_conversation() {
    let out = route(Notification::AddContactResponse([6; 32], "eve".to_string(), false));
    assert_eq!(out.len(), 1);
    assert!(matches!(&out[0], Delivery::UserResponse(u, false) if u == "eve"));
    let out = route(Notification::AddContactResponse([6; 32], "eve".to_string(), true));
    assert_eq!(out.len(), 2);
    assert!(matches!(out[1], Delivery::NewConversation(c) if c == [6; 32]));
}

#[test]
fn invitation_answers_go_to_the_members() {
    let out = route(Notification::AddConversationResponse([7; 32], "al".to_string(), true));
    assert_eq!(out.len(), 1);
    assert!(matches!(&out[0], Delivery::MemberResponse(c, u, true) if *c == [7; 32] && u == "al"));
    let out = route(Notification::NewConversation([8; 32]));
    assert!(matches!(out[0], Delivery::NewConversation(c) if c == [8; 32]));
}

#[test]
fn only_success_registers() {
    assert!(register_new_user(Some(RegisterResponse::Success)));
    assert!(!register_new_user(Some(RegisterResponse::UidTaken)));
    assert!(!register_new_user(Some(RegisterResponse::KeyTaken)));
    assert!(!register_new_user(Some(RegisterResponse::BadSig)));
    assert!(!register_new_user(None));
}

#[test]
fn classic_routing_marks_activity_and_opens_member_channels() {
    let out = classic_route(Notification::NewMsg([1; 32], [2; 32]), false);
    assert_eq!(out.len(), 2);
    assert!(matches!(out[1], Delivery::Activity(c) if c == [2; 32]));
    let out = classic_route(Notification::AddConversationResponse([7; 32], "al".to_string(), true), false);
    assert_eq!(out.len(), 3);
    assert!(matches!(out[0], Delivery::OpenMemberChannel(c) if c == [7; 32]));
    assert!(matches!(&out[1], Delivery::MemberResponse(c, u, true) if *c == [7; 32] && u == "al"));
    assert!(matches!(out[2], Delivery::MembersDataChanged));
    let out = classic_route(Notification::AddConversationResponse([7; 32], "al".to_string(), false), true);
    assert_eq!(out.len(), 2);
    let out = classic_route(Notification::NewConversation([8; 32]), true);
    assert_eq!(out.len(), 1);
}
