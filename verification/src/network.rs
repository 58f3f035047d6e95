//! Where the notifications that arrive from the network go: each becomes one or
//! two updates for the models, delivered in order.
use crate::types::{ConversationId, MsgId, UserId};
use vstd::prelude::*;

verus! {

/// A notification from the server.
pub enum Notification {
    /// A message arrived in a conversation.
    NewMsg(MsgId, ConversationId),
    /// A message was acknowledged.
    MsgReceipt { mid: MsgId, cid: ConversationId },
    /// Someone became a contact, with their pairwise conversation.
    NewContact(UserId, ConversationId),
    /// A conversation was added.
    NewConversation(ConversationId),
    /// The answer to a contact request: the pairwise conversation, who, whether accepted.
    AddContactResponse(ConversationId, UserId, bool),
    /// The answer to a conversation invitation: the conversation, who, whether accepted.
    AddConversationResponse(ConversationId, UserId, bool),
}

/// An update for the models.
pub enum Delivery {
    /// To the message list of a conversation: a new message.
    Message(ConversationId, MsgId),
    /// To the message list of a conversation: a receipt.
    Receipt(ConversationId, MsgId),
    /// To the user list: a new user.
    NewUser(UserId),
    /// To the user list: the answer to a contact request.
    UserResponse(UserId, bool),
    /// To the conversation list: a new conversation.
    NewConversation(ConversationId),
    /// To the members of a conversation: the answer to an invitation.
    MemberResponse(ConversationId, UserId, bool),
    /// To the conversation list: new activity in a conversation.
    Activity(ConversationId),
    /// Open the channel to the members of a conversation, which had none.
    OpenMemberChannel(ConversationId),
    /// Count one more pending update for the members models and tell the view.
    MembersDataChanged,
}

/// The updates that a notification becomes, in the order they are delivered.
pub open spec fn routes(notif: Notification) -> Seq<Delivery> {
    match notif {
        Notification::NewMsg(mid, cid) => seq![Delivery::Message(cid, mid)],
        Notification::MsgReceipt { mid, cid } => seq![Delivery::Receipt(cid, mid)],
        Notification::NewContact(uid, cid) => seq![Delivery::NewUser(uid), Delivery::NewConversation(cid)],
        Notification::NewConversation(cid) => seq![Delivery::NewConversation(cid)],
        Notification::AddContactResponse(cid, uid, accepted) => if accepted {
            seq![Delivery::UserResponse(uid, accepted), Delivery::NewConversation(cid)]
        } else {
            seq![Delivery::UserResponse(uid, accepted)]
        },
        Notification::AddConversationResponse(cid, uid, accepted) => seq![
            Delivery::MemberResponse(cid, uid, accepted),
        ],
    }
}

/// Sorts a notification into updates for the models: a message or receipt for
/// its conversation's message list; a new contact for the user list and, with
/// its pairwise conversation, the conversation list; a new conversation for
/// the conversation list; the answer to a contact request for the user list,
/// and when accepted its conversation for the conversation list; the answer
/// to an invitation for the conversation's members.
pub fn route(notif: Notification) -> (out: Vec<Delivery>)
    ensures
        out@ == routes(notif),
        notif matches Notification::AddConversationResponse(cid, uid, accepted) ==> (out@.len() == 1 && (
        out@[0] matches Delivery::MemberResponse(c, u, a) && c == cid && u@ == uid@ && a == accepted)),
        forall|i: int|
            0 <= i < out@.len() ==> (#[trigger] out@[i] matches Delivery::MemberResponse(c, u, a) ==> (
            notif matches Notification::AddConversationResponse(nc, nu, na) && c == nc && u@ == nu@ && a == na)),
{
    let mut out: Vec<Delivery> = Vec::new();
    match notif {
        Notification::NewMsg(mid, cid) => {
            out.push(Delivery::Message(cid, mid));
        },
        Notification::MsgReceipt { mid, cid } => {
            out.push(Delivery::Receipt(cid, mid));
        },
        Notification::NewContact(uid, cid) => {
            out.push(Delivery::NewUser(uid));
            out.push(Delivery::NewConversation(cid));
        },
        Notification::NewConversation(cid) => {
            out.push(Delivery::NewConversation(cid));
        },
        Notification::AddContactResponse(cid, uid, accepted) => {
            out.push(Delivery::UserResponse(uid, accepted));
            if accepted {
                out.push(Delivery::NewConversation(cid));
            }
        },
        Notification::AddConversationResponse(cid, uid, accepted) => {
            out.push(Delivery::MemberResponse(cid, uid, accepted));
        },
    }
    assert(out@ =~= routes(notif));
    out
}

/// A new message, or its receipt, goes to the message list of its own
/// conversation and nowhere else, carrying the message's id.
pub proof fn messages_go_to_their_conversation(mid: MsgId, cid: ConversationId)
    ensures
        routes(Notification::NewMsg(mid, cid)) == seq![Delivery::Message(cid, mid)],
        routes(Notification::MsgReceipt { mid, cid }) == seq![Delivery::Receipt(cid, mid)],
{
}

/// The answer to a contact request reaches the user list as given, and its
/// conversation is added exactly when the request was accepted.
pub proof fn contact_answer_adds_the_conversation_only_when_accepted(cid: ConversationId, uid: UserId, accepted: bool)
    ensures
        routes(Notification::AddContactResponse(cid, uid, accepted))[0] == Delivery::UserResponse(uid, accepted),
        routes(Notification::AddContactResponse(cid, uid, accepted)).contains(Delivery::NewConversation(cid)) <==> accepted,
{
    let r = routes(Notification::AddContactResponse(cid, uid, accepted));
    if accepted {
        assert(r[1] == Delivery::NewConversation(cid));
    } else {
        assert(r.len() == 1);
    }
}

/// A new contact becomes a user and brings its pairwise conversation.
pub proof fn a_new_contact_brings_its_conversation(uid: UserId, cid: ConversationId)
    ensures
        routes(Notification::NewContact(uid, cid)) == seq![Delivery::NewUser(uid), Delivery::NewConversation(cid)],
{
}

/// The answer to an invitation reaches the conversation's members as it was
/// given: the member update carries the same conversation, user and
/// acceptance as the notification, and it is the only update.
pub proof fn invitation_answer_is_passed_on(cid: ConversationId, uid: UserId, accepted: bool)
    ensures
        routes(Notification::AddConversationResponse(cid, uid, accepted)).len() == 1,
        routes(Notification::AddConversationResponse(cid, uid, accepted))[0] matches Delivery::MemberResponse(c, u, a)
            && c == cid && u == uid && a == accepted,
{
}

/// Only the answer to an invitation becomes a member update, and the update
/// keeps that answer's conversation, user and acceptance.
pub proof fn member_updates_come_from_invitation_answers(notif: Notification, i: int)
    requires
        0 <= i < routes(notif).len(),
        routes(notif)[i] is MemberResponse,
    ensures
        routes(notif)[i] matches Delivery::MemberResponse(c, u, a) && notif matches Notification::AddConversationResponse(
            nc,
            nu,
            na,
        ) && c == nc && u == nu && a == na,
{
}

/// The updates that a notification becomes in the classic message list, in
/// order: a new message also marks its conversation active, and the answer to
/// an invitation first opens the conversation's member channel when
/// `has_channel` says there is none, then is counted and signalled.
pub open spec fn classic_routes(notif: Notification, has_channel: bool) -> Seq<Delivery> {
    match notif {
        Notification::NewMsg(mid, cid) => seq![Delivery::Message(cid, mid), Delivery::Activity(cid)],
        Notification::AddConversationResponse(cid, uid, accepted) => (if has_channel {
            Seq::<Delivery>::empty()
        } else {
            seq![Delivery::OpenMemberChannel(cid)]
        }) + seq![Delivery::MemberResponse(cid, uid, accepted), Delivery::MembersDataChanged],
        _ => routes(notif),
    }
}

/// In the classic list too, the answer to an invitation reaches the members
/// as given, whether or not their channel was open: the member update keeps
/// the notification's conversation, user and acceptance, and is followed by
/// the signal that member data changed.
pub proof fn classic_invitation_answer_is_passed_on(cid: ConversationId, uid: UserId, accepted: bool, has_channel: bool)
    ensures
        ({
            let out = classic_routes(Notification::AddConversationResponse(cid, uid, accepted), has_channel);
            &&& out.len() >= 2
            &&& out[out.len() - 2] matches Delivery::MemberResponse(c, u, a) && c == cid && u == uid && a == accepted
            &&& out[out.len() - 1] is MembersDataChanged
            &&& forall|i: int| 0 <= i < out.len() - 2 ==> #[trigger] out[i] is OpenMemberChannel
        }),
{
}

/// In the classic list a new message goes to its conversation's message list
/// and marks that same conversation active; any other notification but the
/// answer to an invitation is routed as `route` routes it.
pub proof fn classic_new_message_marks_its_conversation_active(mid: MsgId, cid: ConversationId, has_channel: bool)
    ensures
        classic_routes(Notification::NewMsg(mid, cid), has_channel) == seq![Delivery::Message(cid, mid), Delivery::Activity(cid)],
        classic_routes(Notification::MsgReceipt { mid, cid }, has_channel) == routes(Notification::MsgReceipt { mid, cid }),
{
}

/// Sorts a notification as the classic message list does: as `route` does,
/// except that a new message also marks its conversation active, and the
/// answer to an invitation opens the conversation's member channel when there
/// is none yet (`has_channel`), goes to it, and is counted and signalled.
pub fn classic_route(notif: Notification, has_channel: bool) -> (out: Vec<Delivery>)
    ensures
        out@ == classic_routes(notif, has_channel),
        forall|i: int|
            0 <= i < out@.len() ==> (#[trigger] out@[i] matches Delivery::MemberResponse(c, u, a) ==> (
            notif matches Notification::AddConversationResponse(nc, nu, na) && c == nc && u@ == nu@ && a == na)),
        notif matches Notification::AddConversationResponse(cid, uid, accepted) ==> exists|i: int|
            0 <= i < out@.len() && (#[trigger] out@[i] matches Delivery::MemberResponse(c, u, a) && c == cid && u@
                == uid@ && a == accepted),
{
    match notif {
        Notification::NewMsg(mid, cid) => {
            let mut out: Vec<Delivery> = Vec::new();
            out.push(Delivery::Message(cid, mid));
            out.push(Delivery::Activity(cid));
            assert(out@ =~= classic_routes(Notification::NewMsg(mid, cid), has_channel));
            out
        },
        Notification::AddConversationResponse(cid, uid, accepted) => {
            let mut out: Vec<Delivery> = Vec::new();
            if !has_channel {
                out.push(Delivery::OpenMemberChannel(cid));
            }
            let ghost u = uid;
            out.push(Delivery::MemberResponse(cid, uid, accepted));
            out.push(Delivery::MembersDataChanged);
            assert(out@ =~= classic_routes(Notification::AddConversationResponse(cid, u, accepted), has_channel));
            assert(out@[out@.len() - 2] == Delivery::MemberResponse(cid, u, accepted));
            out
        },
        other => route(other),
    }
}

/// How the server answered a registration.
#[derive(Clone, Copy, Debug, PartialEq, Eq)]
pub enum RegisterResponse {
    UidTaken,
    KeyTaken,
    BadSig,
    Success,
}

/// Whether registering a new user worked: the server must have answered
/// (`response` is `None` when the request failed) with success.
pub fn register_new_user(response: Option<RegisterResponse>) -> (ok: bool)
    ensures
        ok == (response == Some(RegisterResponse::Success)),
{
    match response {
        Some(RegisterResponse::Success) => true,
        _ => false,
    }
}

} // verus!
