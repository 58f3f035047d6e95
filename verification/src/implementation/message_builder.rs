//! The classic message composer: the conversation, the message replied to,
//! the body and the attachment paths of a message being written.
use crate::signal::ModelCall;
use crate::types::{id_from_slice, ConversationId, MsgId};
use vstd::prelude::*;

verus! {

/// A message being composed.
pub struct OutboundMessage {
    pub conversation: Option<ConversationId>,
    pub op: Option<MsgId>,
    pub body: Option<String>,
    pub attachments: Vec<String>,
}

/// The classic message composer; `inner` is gone once the message was handed over.
pub struct MessageBuilder {
    pub calls: Vec<ModelCall>,
    pub inner: Option<OutboundMessage>,
}

/// `ix` is the last index of `path` in `paths`, or `None` when it is not there.
pub open spec fn last_path(paths: Seq<String>, path: Seq<char>, ix: Option<usize>) -> bool {
    match ix {
        Some(i) => i < paths.len() && paths[i as int]@ == path && forall|j: int|
            i < j < paths.len() ==> #[trigger] paths[j]@ != path,
        None => forall|j: int| 0 <= j < paths.len() ==> #[trigger] paths[j]@ != path,
    }
}

/// The last index of `path` in `paths`.
pub fn rposition_path(paths: &Vec<String>, path: &String) -> (ix: Option<usize>)
    ensures
        last_path(paths@, path@, ix),
{
    let mut i: usize = paths.len();
    while i > 0
        invariant
            i <= paths@.len(),
            forall|j: int| i <= j < paths@.len() ==> #[trigger] paths@[j]@ != path@,
        decreases i,
    {
        i = i - 1;
        if paths[i].eq(path) {
            return Some(i);
        }
    }
    None
}

impl MessageBuilder {
    /// A composer with an empty message.
    pub fn new() -> (b: MessageBuilder)
        ensures
            b.calls@.len() == 0,
            b.inner matches Some(m) && m.conversation is None && m.op is None && m.body is None
                && m.attachments@.len() == 0,
    {
        MessageBuilder {
            calls: Vec::new(),
            inner: Some(OutboundMessage { conversation: None, op: None, body: None, attachments: Vec::new() }),
        }
    }

    /// The conversation the message goes to.
    pub fn conversation_id(&self) -> (c: Option<&ConversationId>)
        ensures
            match self.inner {
                Some(m) => match m.conversation {
                    Some(id) => c == Some(&id),
                    None => c is None,
                },
                None => c is None,
            },
    {
        match &self.inner {
            Some(m) => match &m.conversation {
                Some(id) => Some(id),
                None => None,
            },
            None => None,
        }
    }

    /// Sets the conversation to the one whose id is the bytes `cid`; no id,
    /// bytes that are no id, or no message change nothing.
    pub fn set_conversation_id(&mut self, cid: Option<&[u8]>)
        ensures
            final(self).calls == old(self).calls,
            old(self).inner is None || !(cid matches Some(b) && b@.len() == 32) ==> *final(self) == *old(self),
            old(self).inner is Some && (cid matches Some(b) && b@.len() == 32) ==> {
                &&& final(self).inner matches Some(m)
                &&& final(self).inner.unwrap().conversation matches Some(id) && id@ == cid.unwrap()@
                &&& final(self).inner == Some(
                    (OutboundMessage { conversation: final(self).inner.unwrap().conversation, ..old(self).inner.unwrap() }),
                )
            },
    {
        let bytes = match cid {
            Some(b) => b,
            None => {
                return;
            },
        };
        let id = match id_from_slice(bytes) {
            Some(id) => id,
            None => {
                return;
            },
        };
        match &mut self.inner {
            Some(m) => {
                m.conversation = Some(id);
            },
            None => {},
        }
    }

    /// The message replied to.
    pub fn replying_to(&self) -> (op: Option<&MsgId>)
        ensures
            match self.inner {
                Some(m) => match m.op {
                    Some(id) => op == Some(&id),
                    None => op is None,
                },
                None => op is None,
            },
    {
        match &self.inner {
            Some(m) => match &m.op {
                Some(id) => Some(id),
                None => None,
            },
            None => None,
        }
    }

    /// Replies to the message whose id is the bytes `op_msg_id`, or to none;
    /// bytes that are no id, or no message, change nothing.
    pub fn set_replying_to(&mut self, op_msg_id: Option<&[u8]>)
        ensures
            final(self).calls == old(self).calls,
            old(self).inner is None || (op_msg_id matches Some(b) && b@.len() != 32) ==> *final(self) == *old(self),
            old(self).inner is Some && op_msg_id is None ==> final(self).inner == Some(
                (OutboundMessage { op: None, ..old(self).inner.unwrap() }),
            ),
            old(self).inner is Some && (op_msg_id matches Some(b) && b@.len() == 32) ==> {
                &&& final(self).inner matches Some(m)
                &&& final(self).inner.unwrap().op matches Some(id) && id@ == op_msg_id.unwrap()@
                &&& final(self).inner == Some(
                    (OutboundMessage { op: final(self).inner.unwrap().op, ..old(self).inner.unwrap() }),
                )
            },
    {
        let op = match op_msg_id {
            Some(bytes) => match id_from_slice(bytes) {
                Some(id) => Some(id),
                None => {
                    return;
                },
            },
            None => None,
        };
        match &mut self.inner {
            Some(m) => {
                m.op = op;
            },
            None => {},
        }
    }

    /// Adds the attachment at `path` as the last row, telling the view;
    /// `false` when the message was handed over.
    pub fn add_attachment(&mut self, path: String) -> (ok: bool)
        ensures
            ok == old(self).inner is Some,
            !ok ==> *final(self) == *old(self),
            ok ==> {
                let m = old(self).inner.unwrap();
                let n = m.attachments@.len() as usize;
                &&& final(self).inner == Some(
                    (OutboundMessage { attachments: final(self).inner.unwrap().attachments, ..m }),
                )
                &&& final(self).inner.unwrap().attachments@ == m.attachments@.push(path)
                &&& final(self).calls@ == old(self).calls@ + seq![
                    ModelCall::BeginInsertRows { first: n, last: n },
                    ModelCall::EndInsertRows,
                ]
            },
    {
        match &mut self.inner {
            Some(m) => {
                let n = m.attachments.len();
                self.calls.push(ModelCall::BeginInsertRows { first: n, last: n });
                m.attachments.push(path);
                self.calls.push(ModelCall::EndInsertRows);
                true
            },
            None => false,
        }
    }

    /// Sets the body, `accepted` saying whether it is a valid message body;
    /// a body that is not changes nothing, and no body clears it.
    pub fn set_body(&mut self, body: Option<String>, accepted: bool)
        ensures
            final(self).calls == old(self).calls,
            old(self).inner is None || (body is Some && !accepted) ==> *final(self) == *old(self),
            old(self).inner is Some && (body is None || accepted) ==> final(self).inner == Some(
                (OutboundMessage { body, ..old(self).inner.unwrap() }),
            ),
    {
        if body.is_some() && !accepted {
            return;
        }
        match &mut self.inner {
            Some(m) => {
                m.body = body;
            },
            None => {},
        }
    }

    /// Hands over the message being composed, leaving none.
    pub fn finalize(&mut self) -> (m: Option<OutboundMessage>)
        ensures
            m == old(self).inner,
            final(self).inner is None,
            final(self).calls == old(self).calls,
    {
        self.inner.take()
    }

    /// Removes the last attachment with path `path`, telling the view; `false`
    /// when the message was handed over or has no such attachment.
    pub fn remove_attachment(&mut self, path: String) -> (ok: bool)
        ensures
            !ok ==> *final(self) == *old(self),
            ok <==> (old(self).inner matches Some(m) && exists|i: int| 0 <= i < m.attachments@.len() && m.attachments@[i]@ == path@),
            ok ==> exists|ix: usize| {
                &&& #[trigger] last_path(old(self).inner.unwrap().attachments@, path@, Some(ix))
                &&& final(self).inner.unwrap().attachments@ == old(self).inner.unwrap().attachments@.remove(ix as int)
                &&& final(self).inner == Some((OutboundMessage { attachments: final(self).inner.unwrap().attachments, ..old(self).inner.unwrap() }))
                &&& final(self).calls@ == old(self).calls@ + seq![
                    ModelCall::BeginRemoveRows { first: ix, last: ix },
                    ModelCall::EndRemoveRows,
                ]
            },
    {
        match &mut self.inner {
            Some(m) => {
                let pos = match rposition_path(&m.attachments, &path) {
                    Some(p) => p,
                    None => {
                        return false;
                    },
                };
                self.calls.push(ModelCall::BeginRemoveRows { first: pos, last: pos });
                m.attachments.remove(pos);
                self.calls.push(ModelCall::EndRemoveRows);
                true
            },
            None => false,
        }
    }

    /// Refuses to remove an attachment by index: an index within the
    /// attachments is turned down with `false`, and so is a call after the
    /// message was handed over; a larger index would remove past the end, which
    /// `requires` rules out.
    pub fn remove_attachment_by_index(&mut self, row_index: u64) -> (ok: bool)
        requires
            old(self).inner matches Some(m) ==> (row_index as usize) < m.attachments@.len(),
        ensures
            !ok,
            *final(self) == *old(self),
    {
        let ix = row_index as usize;
        match &self.inner {
            Some(m) => {
                if ix < m.attachments.len() {
                    return false;
                }
                false
            },
            None => false,
        }
    }

    /// Removes the last attachment, telling the view (of row 0 when there is none).
    pub fn remove_last(&mut self)
        ensures
            old(self).inner is None ==> *final(self) == *old(self),
            old(self).inner is Some ==> {
                let m = old(self).inner.unwrap();
                let last = if m.attachments@.len() == 0 { 0usize } else { (m.attachments@.len() - 1) as usize };
                &&& final(self).inner.unwrap().attachments@ == if m.attachments@.len() == 0 {
                    m.attachments@
                } else {
                    m.attachments@.drop_last()
                }
                &&& final(self).inner == Some((OutboundMessage { attachments: final(self).inner.unwrap().attachments, ..m }))
                &&& final(self).calls@ == old(self).calls@ + seq![
                    ModelCall::BeginRemoveRows { first: last, last },
                    ModelCall::EndRemoveRows,
                ]
            },
    {
        match &mut self.inner {
            Some(m) => {
                let last = m.attachments.len().saturating_sub(1);
                self.calls.push(ModelCall::BeginRemoveRows { first: last, last });
                let _ = m.attachments.pop();
                self.calls.push(ModelCall::EndRemoveRows);
            },
            None => {},
        }
    }

    /// The number of attachments; 0 once the message was handed over.
    pub fn row_count(&self) -> (n: usize)
        ensures
            n == match self.inner {
                Some(m) => m.attachments@.len(),
                None => 0,
            },
    {
        match &self.inner {
            Some(m) => m.attachments.len(),
            None => 0,
        }
    }

    /// The path of the attachment at `index`; empty past the end or once the
    /// message was handed over.
    pub fn attachment_path(&self, index: usize) -> (p: &str)
        ensures
            match self.inner {
                Some(m) => if index < m.attachments@.len() {
                    p@ == m.attachments@[index as int]@
                } else {
                    p@ == ""@
                },
                None => p@ == ""@,
            },
    {
        match &self.inner {
            Some(m) => if index < m.attachments.len() {
                m.attachments[index].as_str()
            } else {
                ""
            },
            None => "",
        }
    }
}

} // verus!
