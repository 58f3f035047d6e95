//! The reply part of the message builder: which message the message being
//! composed answers, and what the view shows of it.
use super::container::Container;
use super::NotFound;
use super::types::MsgData;
use crate::interface::message_builder::{MessageBuilderEmitter, MessageBuilderSignal};
use crate::signal::{lemma_raised_more, lemma_raised_none, raised, raised_all, Emission};
use crate::types::{ids_equal, MsgId, Time, UserId};
use vstd::prelude::*;

verus! {

/// What the view shows of the message being replied to.
pub struct Reply {
    pub time: Time,
    pub body: Option<String>,
    pub author: UserId,
    pub has_attachments: bool,
}

/// `reply` shows the message with data `data`.
pub open spec fn shows(reply: Reply, data: MsgData) -> bool {
    &&& reply.time == data.time.insertion
    &&& reply.body == data.body
    &&& reply.author == data.author
    &&& reply.has_attachments == data.has_attachments
}

impl Reply {
    /// What the view shows of a message with data `data`.
    pub fn from_msg_data(data: &MsgData) -> (reply: Reply)
        ensures
            shows(reply, *data),
    {
        let body = match &data.body {
            Some(b) => Some(b.clone()),
            None => None,
        };
        Reply {
            time: data.time.insertion,
            body,
            author: data.author.clone(),
            has_attachments: data.has_attachments,
        }
    }
}

/// The reply that the view shows for the message with id `op_msg_id`, if the
/// container holds it.
pub fn get_reply(op_msg_id: &MsgId, container: &Container) -> (reply: Option<Reply>)
    ensures
        container.data().contains_key(*op_msg_id) <==> reply is Some,
        reply matches Some(r) ==> shows(r, container.data()[*op_msg_id]),
{
    match container.get_data(op_msg_id) {
        Some(d) => Some(Reply::from_msg_data(d)),
        None => None,
    }
}

/// Whether the message being replied to changed.
#[derive(PartialEq, Eq, Clone, Copy, Debug)]
pub enum OpChanged {
    Changed,
    NotChanged,
}

/// The five signals that tell the view that what it shows of the reply changed,
/// in the order they are raised.
pub open spec fn op_signals() -> Seq<MessageBuilderSignal> {
    seq![
        MessageBuilderSignal::OpIdChanged,
        MessageBuilderSignal::OpBodyChanged,
        MessageBuilderSignal::OpAuthorChanged,
        MessageBuilderSignal::OpTimeChanged,
        MessageBuilderSignal::OpHasAttachmentsChanged,
    ]
}

/// The reply state of the message builder.
pub struct MessageBuilder {
    pub emit: MessageBuilderEmitter,
    /// The id of the message that the outgoing message answers.
    pub op_id: Option<MsgId>,
    /// What the view shows of that message.
    pub op: Option<Reply>,
}

impl MessageBuilder {
    /// A builder that replies to nothing.
    pub fn new(emit: MessageBuilderEmitter) -> (b: MessageBuilder)
        ensures
            b.op_id is None,
            b.op is None,
            b.emit@ == emit@,
    {
        MessageBuilder { emit, op_id: None, op: None }
    }

    /// Tells the view that everything it shows of the reply changed.
    pub fn emit_op_changed(&mut self)
        ensures
            raised_all(old(self).emit@, final(self).emit@, op_signals()),
            final(self).op_id == old(self).op_id,
            final(self).op == old(self).op,
    {
        let ghost e0 = self.emit@;
        self.emit.op_id_changed();
        let ghost e1 = self.emit@;
        self.emit.op_body_changed();
        let ghost e2 = self.emit@;
        self.emit.op_author_changed();
        let ghost e3 = self.emit@;
        self.emit.op_time_changed();
        let ghost e4 = self.emit@;
        self.emit.op_has_attachments_changed();
        proof {
            let s = op_signals();
            lemma_raised_none(e0);
            assert(s.take(0) =~= Seq::<MessageBuilderSignal>::empty());
            lemma_raised_more(e0, e0, e1, s.take(0), s[0]);
            assert(s.take(0).push(s[0]) =~= s.take(1));
            lemma_raised_more(e0, e1, e2, s.take(1), s[1]);
            assert(s.take(1).push(s[1]) =~= s.take(2));
            lemma_raised_more(e0, e2, e3, s.take(2), s[2]);
            assert(s.take(2).push(s[2]) =~= s.take(3));
            lemma_raised_more(e0, e3, e4, s.take(3), s[3]);
            assert(s.take(3).push(s[3]) =~= s.take(4));
            lemma_raised_more(e0, e4, self.emit@, s.take(4), s[4]);
            assert(s.take(4).push(s[4]) =~= s);
        }
    }

    /// Drops what the view shows of the reply, telling it so; the id that the
    /// outgoing message answers stays.
    pub fn clear_reply_(&mut self) -> (r: OpChanged)
        ensures
            final(self).op is None,
            final(self).op_id == old(self).op_id,
            old(self).op is None ==> r == OpChanged::NotChanged && final(self).emit@ == old(self).emit@,
            old(self).op is Some ==> r == OpChanged::Changed,
    {
        match self.op.take() {
            Some(_) => {
                self.op = None;
                self.emit_op_changed();
                self.emit.is_reply_changed();
                OpChanged::Changed
            },
            None => OpChanged::NotChanged,
        }
    }

    /// Makes the outgoing message answer the message with id `op_msg_id`. The
    /// id it answers already changes nothing; a message that the container lacks
    /// clears the reply instead.
    pub fn update_op_id(&mut self, op_msg_id: &MsgId, container: &Container) -> (r: OpChanged)
        ensures
            old(self).op_id == Some(*op_msg_id) ==> r == OpChanged::NotChanged && final(self).op_id
                == old(self).op_id && final(self).op == old(self).op,
            old(self).op_id != Some(*op_msg_id) && !container.data().contains_key(*op_msg_id) ==> (
            final(self).op is None && final(self).op_id == old(self).op_id && (r == OpChanged::Changed
                <==> old(self).op is Some)),
            old(self).op_id != Some(*op_msg_id) && container.data().contains_key(*op_msg_id) ==> (
            r == OpChanged::Changed && final(self).op_id == Some(*op_msg_id) && (final(self).op matches Some(
                rep,
            ) && shows(rep, container.data()[*op_msg_id]))),
    {
        match &self.op_id {
            Some(old_id) => {
                if ids_equal(op_msg_id, old_id) {
                    return OpChanged::NotChanged;
                }
            },
            None => {},
        }
        let reply = match get_reply(op_msg_id, container) {
            Some(reply) => reply,
            None => {
                return self.clear_reply_();
            },
        };
        self.op_id = Some(*op_msg_id);
        self.op = Some(reply);
        self.emit_op_changed();
        self.emit.is_reply_changed();
        OpChanged::Changed
    }

    /// The id that the outgoing message answers.
    pub fn op_id_slice(&self) -> (id: Option<&MsgId>)
        ensures
            id matches Some(i) ==> self.op_id == Some(*i),
            id is None ==> self.op_id is None,
    {
        match &self.op_id {
            Some(id) => Some(id),
            None => None,
        }
    }

    /// Makes the outgoing message answer the message whose id is the bytes
    /// `op_msg_id`, as `update_op_id` does, or clears what the view shows of
    /// the reply when no id is given. Bytes that are no id fail, changing nothing.
    pub fn set_op_id(&mut self, op_msg_id: Option<&[u8]>, container: &Container) -> (r: Result<OpChanged, NotFound>)
        ensures
            op_msg_id is None ==> r is Ok && final(self).op is None && final(self).op_id == old(self).op_id
                && (r == Ok::<OpChanged, NotFound>(OpChanged::Changed) <==> old(self).op is Some),
            (op_msg_id matches Some(b) && b@.len() != 32) ==> r is Err && *final(self) == *old(self),
            (op_msg_id matches Some(b) && b@.len() == 32) ==> {
                let id = choose|a: [u8; 32]| #![trigger a@] a@ == op_msg_id.unwrap()@;
                &&& r is Ok
                &&& old(self).op_id == Some(id) ==> r == Ok::<OpChanged, NotFound>(OpChanged::NotChanged)
                    && final(self).op_id == old(self).op_id && final(self).op == old(self).op
                &&& old(self).op_id != Some(id) && !container.data().contains_key(id) ==> final(self).op is None
                    && final(self).op_id == old(self).op_id
                &&& old(self).op_id != Some(id) && container.data().contains_key(id) ==> r == Ok::<OpChanged, NotFound>(
                    OpChanged::Changed,
                ) && final(self).op_id == Some(id) && (final(self).op matches Some(rep) && shows(rep, container.data()[id]))
            },
    {
        match op_msg_id {
            None => Ok(self.clear_reply_()),
            Some(bytes) => match crate::types::id_from_slice(bytes) {
                Some(id) => {
                    proof {
                        let c = choose|a: [u8; 32]| #![trigger a@] a@ == bytes@;
                        broadcast use vstd::array::group_array_axioms;
                        assert(c =~= id);
                    }
                    Ok(self.update_op_id(&id, container))
                },
                None => Err(NotFound),
            },
        }
    }

    /// Clears the reply when the outgoing message answers the message with id
    /// `msg_id`, which is going away.
    pub fn try_clear_reply(&mut self, msg_id: &MsgId) -> (r: OpChanged)
        ensures
            old(self).op_id == Some(*msg_id) ==> final(self).op is None && final(self).op_id == old(
                self,
            ).op_id && (r == OpChanged::Changed <==> old(self).op is Some),
            old(self).op_id != Some(*msg_id) ==> r == OpChanged::NotChanged && final(self).op_id
                == old(self).op_id && final(self).op == old(self).op && final(self).emit@ == old(
                self,
            ).emit@,
    {
        let same = match &self.op_id {
            Some(id) => ids_equal(id, msg_id),
            None => false,
        };
        if same {
            self.clear_reply_()
        } else {
            OpChanged::NotChanged
        }
    }
}

} // verus!
