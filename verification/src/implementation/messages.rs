//! The classic message list of a conversation: message ids in the order they
//! arrived, and the stored messages by id. Changes are told to the view through
//! two outboxes, one of property signals and one of list-model calls.
use crate::messages::store::{data_get, data_insert, data_new, data_remove};
use crate::messages::types::{max_receipt, max_receipt_status, NO_ACK};
use crate::messages::NotFound;
use crate::signal::ModelCall;
use crate::types::{id_from_slice, ids_equal, some_text, users_equal, ConversationId, MsgId, UserId};
use std::collections::HashMap;
use vstd::prelude::*;

verus! {

/// A message as storage hands it over.
pub struct StoredMsg {
    pub message_id: MsgId,
    pub author: UserId,
    pub body: Option<String>,
    /// The message this one replies to.
    pub op: Option<MsgId>,
    /// When it was sent, in milliseconds since the epoch.
    pub timestamp: i64,
    /// The receipt status that each recipient reported.
    pub receipts: Vec<u32>,
    pub has_attachments: bool,
}

/// A row of the list: a message id, and whether the message is stored.
#[derive(Clone, Copy)]
pub struct Message {
    pub msg_id: MsgId,
    pub data_saved: bool,
}

/// The property signals of the list.
#[derive(Clone, Copy, Debug, PartialEq, Eq)]
pub enum MessagesSignal {
    LastAuthorChanged,
    LastBodyChanged,
    LastEpochTimestampMsChanged,
    LastStatusChanged,
    ConversationIdChanged,
}

/// An update for the list, with what storage said about it already fetched.
pub enum MsgUpdate {
    /// A message arrived and was read from storage.
    Msg(StoredMsg),
    /// A message composed here, not stored yet.
    FullMsg(StoredMsg),
    /// A message was acknowledged; the receipts that storage now holds for it,
    /// `None` when reading them failed.
    Receipt(MsgId, Option<Vec<u32>>),
    /// A message finished saving.
    StoreDone(MsgId),
}

/// What polling one update leads to.
#[derive(Clone, Copy, PartialEq, Eq)]
pub enum PollStep {
    /// Go on with the next update.
    Continue,
    /// Go on, after telling the conversation list of new activity in this conversation.
    Activity(ConversationId),
    /// Stop polling: the poll failed.
    Stop,
}

/// The signals that tell the view the last message changed.
pub open spec fn last_signals() -> Seq<MessagesSignal> {
    seq![
        MessagesSignal::LastAuthorChanged,
        MessagesSignal::LastBodyChanged,
        MessagesSignal::LastEpochTimestampMsChanged,
        MessagesSignal::LastStatusChanged,
    ]
}

/// `ix` is the last row of `list` with id `id`, or `None` when no row has it.
pub open spec fn last_row_of(list: Seq<Message>, id: MsgId, ix: Option<usize>) -> bool {
    match ix {
        Some(i) => i < list.len() && list[i as int].msg_id == id && forall|j: int|
            i < j < list.len() ==> #[trigger] list[j].msg_id != id,
        None => forall|j: int| 0 <= j < list.len() ==> #[trigger] list[j].msg_id != id,
    }
}

/// The last row of `list` with id `id`, searching from the end.
pub fn rposition_id(list: &Vec<Message>, id: &MsgId) -> (ix: Option<usize>)
    ensures
        last_row_of(list@, *id, ix),
{
    let mut i: usize = list.len();
    while i > 0
        invariant
            i <= list@.len(),
            forall|j: int| i <= j < list@.len() ==> #[trigger] list@[j].msg_id != *id,
        decreases i,
    {
        i = i - 1;
        if ids_equal(&list[i].msg_id, id) {
            return Some(i);
        }
    }
    None
}

/// What appending `msg` as a row marked `data_saved` did to `before`, giving
/// `after`: a new last row with its id, and the message stored under it.
pub open spec fn appended(before: Messages, after: Messages, msg: StoredMsg, data_saved: bool) -> bool {
    &&& after.list@ == before.list@.push((Message { msg_id: msg.message_id, data_saved }))
    &&& after.map@ == before.map@.insert(msg.message_id, msg)
}

/// What deleting the row at `ix` did to `before`, giving `after`: the row and
/// the message stored under its id are gone.
pub open spec fn deleted_row(before: Messages, after: Messages, ix: int) -> bool {
    &&& after.list@ == before.list@.remove(ix)
    &&& after.map@ == before.map@.remove(before.list@[ix].msg_id)
}

/// Deleting the row that appending a new message made gives back the rows and
/// the stored messages as they were.
pub proof fn append_then_delete_restores(m0: Messages, m1: Messages, m2: Messages, msg: StoredMsg, data_saved: bool)
    requires
        !m0.map@.contains_key(msg.message_id),
        appended(m0, m1, msg, data_saved),
        deleted_row(m1, m2, m0.list@.len() as int),
    ensures
        m2.list@ == m0.list@,
        m2.map@ == m0.map@,
{
    assert(m2.list@ =~= m0.list@);
    assert(m2.map@ =~= m0.map@);
}

/// The classic message list of one conversation.
pub struct Messages {
    pub signals: Vec<MessagesSignal>,
    pub calls: Vec<ModelCall>,
    pub list: Vec<Message>,
    pub map: HashMap<MsgId, StoredMsg>,
    pub local_id: UserId,
    pub conversation_id: Option<ConversationId>,
}

impl Messages {
    /// The stored message at `row`, when the row exists and its message is stored.
    pub open spec fn stored_at(&self, row: int) -> Option<StoredMsg> {
        if 0 <= row < self.list@.len() && self.map@.contains_key(self.list@[row].msg_id) {
            Some(self.map@[self.list@[row].msg_id])
        } else {
            None
        }
    }

    /// The stored last message.
    pub open spec fn last_stored(&self) -> Option<StoredMsg> {
        self.stored_at(self.list@.len() - 1)
    }

    /// An empty list for the local user `local_id`, with no conversation.
    pub fn new(local_id: UserId) -> (m: Messages)
        ensures
            m.list@.len() == 0,
            m.map@ == Map::<MsgId, StoredMsg>::empty(),
            m.signals@.len() == 0,
            m.calls@.len() == 0,
            m.local_id == local_id,
            m.conversation_id is None,
    {
        Messages {
            signals: Vec::new(),
            calls: Vec::new(),
            list: Vec::new(),
            map: data_new(),
            local_id,
            conversation_id: None,
        }
    }

    /// The stored message at `row`.
    fn stored(&self, row: usize) -> (m: Option<&StoredMsg>)
        ensures
            match m {
                Some(r) => self.stored_at(row as int) == Some(*r),
                None => self.stored_at(row as int) is None,
            },
    {
        if row >= self.list.len() {
            return None;
        }
        data_get(&self.map, &self.list[row].msg_id)
    }

    /// The stored last message.
    fn last_msg(&self) -> (m: Option<&StoredMsg>)
        ensures
            match m {
                Some(r) => self.last_stored() == Some(*r),
                None => self.last_stored() is None,
            },
    {
        if self.list.len() == 0 {
            return None;
        }
        self.stored(self.list.len() - 1)
    }

    /// Tells the view that the last message changed.
    pub fn emit_last_changed(&mut self)
        ensures
            final(self).signals@ == old(self).signals@ + last_signals(),
            final(self).calls == old(self).calls,
            final(self).list == old(self).list,
            final(self).map == old(self).map,
            final(self).conversation_id == old(self).conversation_id,
            final(self).local_id == old(self).local_id,
    {
        self.signals.push(MessagesSignal::LastAuthorChanged);
        self.signals.push(MessagesSignal::LastBodyChanged);
        self.signals.push(MessagesSignal::LastEpochTimestampMsChanged);
        self.signals.push(MessagesSignal::LastStatusChanged);
        assert(final(self).signals@ =~= old(self).signals@ + last_signals());
    }

    /// Appends `msg` as a new last row and tells the view. `Err` when no
    /// conversation is set; otherwise the conversation, which has new activity.
    pub fn raw_insert(&mut self, msg: StoredMsg, data_saved: bool) -> (r: Result<ConversationId, NotFound>)
        ensures
            old(self).conversation_id is None ==> r is Err && *final(self) == *old(self),
            old(self).conversation_id matches Some(cid) ==> {
                let n = old(self).list@.len() as usize;
                &&& r == Ok::<ConversationId, NotFound>(cid)
                &&& appended(*old(self), *final(self), msg, data_saved)
                &&& final(self).calls@ == old(self).calls@ + seq![
                    ModelCall::BeginInsertRows { first: n, last: n },
                    ModelCall::EndInsertRows,
                ]
                &&& final(self).signals@ == old(self).signals@ + last_signals()
                &&& final(self).conversation_id == old(self).conversation_id
            },
    {
        let cid = match self.conversation_id {
            Some(c) => c,
            None => {
                return Err(NotFound);
            },
        };
        let n = self.list.len();
        let msg_id = msg.message_id;
        self.calls.push(ModelCall::BeginInsertRows { first: n, last: n });
        self.list.push(Message { msg_id, data_saved });
        data_insert(&mut self.map, msg_id, msg);
        self.calls.push(ModelCall::EndInsertRows);
        self.emit_last_changed();
        Ok(cid)
    }

    /// The author of the last message: "You" when it is the local user.
    pub fn last_author(&self) -> (a: Option<&str>)
        ensures
            self.last_stored() is None ==> a is None,
            self.last_stored() matches Some(s) ==> some_text(
                a,
                if s.author@ == self.local_id@ {
                    "You"@
                } else {
                    s.author@
                },
            ),
    {
        let last = match self.last_msg() {
            Some(l) => l,
            None => {
                return None;
            },
        };
        if users_equal(&last.author, &self.local_id) {
            Some("You")
        } else {
            Some(last.author.as_str())
        }
    }

    /// The highest receipt status of the last message, if it has receipts.
    pub fn last_status(&self) -> (s: Option<u32>)
        ensures
            self.last_stored() is None ==> s is None,
            self.last_stored() matches Some(m) ==> s == max_receipt(m.receipts@),
    {
        match self.last_msg() {
            None => None,
            Some(m) => max_receipt_status(&m.receipts),
        }
    }

    /// The body of the last message.
    pub fn last_body(&self) -> (b: Option<&str>)
        ensures
            self.last_stored() is None ==> b is None,
            self.last_stored() matches Some(m) ==> crate::types::shows_text(b, m.body),
    {
        match self.last_msg() {
            None => None,
            Some(m) => match &m.body {
                Some(body) => Some(body.as_str()),
                None => None,
            },
        }
    }

    /// When the last message was sent.
    pub fn last_epoch_timestamp_ms(&self) -> (t: Option<i64>)
        ensures
            self.last_stored() is None ==> t is None,
            self.last_stored() matches Some(m) ==> t == Some(m.timestamp),
    {
        match self.last_msg() {
            None => None,
            Some(m) => Some(m.timestamp),
        }
    }

    /// The row of the message whose id is the bytes `msg_id`, searching from the
    /// end: `u32::MAX` when the bytes are no id or no row has it, `u64::MAX`
    /// when the message is not stored.
    pub fn index_by_id(&self, msg_id: &[u8]) -> (ix: u64)
        ensures
            msg_id@.len() != 32 ==> ix == u32::MAX as u64,
            msg_id@.len() == 32 ==> {
                let id = choose|a: [u8; 32]| a@ == msg_id@;
                &&& !self.map@.contains_key(id) ==> ix == u64::MAX
                &&& self.map@.contains_key(id) ==> (ix == u32::MAX as u64 && last_row_of(
                    self.list@,
                    id,
                    None,
                )) || (ix < self.list@.len() && last_row_of(self.list@, id, Some(ix as usize)))
            },
    {
        let id = match id_from_slice(msg_id) {
            Some(id) => id,
            None => {
                return 4294967295;
            },
        };
        proof {
            let c = choose|a: [u8; 32]| a@ == msg_id@;
            broadcast use vstd::array::group_array_axioms;
            assert(c =~= id);
        }
        if data_get(&self.map, &id).is_none() {
            return u64::MAX;
        }
        match rposition_id(&self.list, &id) {
            Some(ix) => ix as u64,
            None => 4294967295,
        }
    }

    /// Binds the list to the conversation whose id is the bytes
    /// `conversation_id`, once: only when none is bound yet and the bytes are an
    /// id. Hands back the id bound, after which the stored messages are loaded.
    pub fn set_conversation_id(&mut self, conversation_id: Option<&[u8]>) -> (bound: Option<ConversationId>)
        ensures
            (conversation_id matches Some(b) && b@.len() == 32 && old(self).conversation_id is None)
                <==> bound is Some,
            bound is None ==> *final(self) == *old(self),
            bound matches Some(c) ==> {
                &&& conversation_id matches Some(b) && c@ == b@
                &&& final(self).conversation_id == Some(c)
                &&& final(self).signals@ == old(self).signals@.push(MessagesSignal::ConversationIdChanged)
                &&& final(self).list == old(self).list
                &&& final(self).map == old(self).map
                &&& final(self).calls == old(self).calls
            },
    {
        if self.conversation_id.is_some() {
            return None;
        }
        let bytes = match conversation_id {
            Some(b) => b,
            None => {
                return None;
            },
        };
        let id = match id_from_slice(bytes) {
            Some(id) => id,
            None => {
                return None;
            },
        };
        self.conversation_id = Some(id);
        self.signals.push(MessagesSignal::ConversationIdChanged);
        Some(id)
    }

    /// Takes in the stored messages of the conversation just bound: each goes
    /// into the map, and when there are any the rows become their ids, marked
    /// stored, and the view hears of the new rows and the new last message.
    pub fn fill_messages(&mut self, messages: Vec<StoredMsg>)
        ensures
            final(self).conversation_id == old(self).conversation_id,
            forall|k: MsgId|
                #[trigger] final(self).map@.contains_key(k) <==> (old(self).map@.contains_key(k) || exists|i: int|
                    0 <= i < messages@.len() && messages@[i].message_id == k),
            forall|i: int|
                0 <= i < messages@.len() && (forall|j: int| i < j < messages@.len() ==> messages@[j].message_id
                    != messages@[i].message_id) ==> final(self).map@[#[trigger] messages@[i].message_id]
                    == messages@[i],
            forall|k: MsgId|
                old(self).map@.contains_key(k) && (forall|i: int| 0 <= i < messages@.len() ==> #[trigger] messages@[i].message_id
                    != k) ==> final(self).map@[k] == old(self).map@[k],
            messages@.len() == 0 ==> final(self).list == old(self).list && final(self).calls
                == old(self).calls && final(self).signals == old(self).signals,
            messages@.len() > 0 ==> {
                &&& final(self).list@.len() == messages@.len()
                &&& forall|i: int|
                    0 <= i < messages@.len() ==> #[trigger] final(self).list@[i] == (Message {
                        msg_id: messages@[i].message_id,
                        data_saved: true,
                    })
                &&& final(self).calls@ == old(self).calls@ + seq![
                    ModelCall::BeginInsertRows { first: 0, last: (messages@.len() - 1) as usize },
                    ModelCall::EndInsertRows,
                ]
                &&& final(self).signals@ == old(self).signals@ + last_signals()
            },
    {
        let ghost all = messages@;
        let ghost m0 = self.map@;
        let mut messages = messages;
        let n = messages.len();
        let mut rows: Vec<Message> = Vec::new();
        let mut i: usize = 0;
        while i < n
            invariant
                n == all.len(),
                i <= n,
                messages@ == all.subrange(i as int, n as int),
                rows@.len() == i,
                forall|j: int|
                    0 <= j < i ==> #[trigger] rows@[j] == (Message { msg_id: all[j].message_id, data_saved: true }),
                forall|k: MsgId|
                    #[trigger] self.map@.contains_key(k) <==> (m0.contains_key(k) || exists|j: int|
                        0 <= j < i && all[j].message_id == k),
                forall|j: int|
                    0 <= j < i && (forall|l: int| j < l < i ==> all[l].message_id != all[j].message_id)
                        ==> self.map@[#[trigger] all[j].message_id] == all[j],
                forall|k: MsgId|
                    m0.contains_key(k) && (forall|j: int| 0 <= j < i ==> #[trigger] all[j].message_id != k)
                        ==> self.map@[k] == m0[k],
                self.conversation_id == old(self).conversation_id,
                self.list == old(self).list,
                self.calls == old(self).calls,
                self.signals == old(self).signals,
            decreases n - i,
        {
            let m = messages.remove(0);
            let mid = m.message_id;
            proof {
                assert(m == all[i as int]);
            }
            rows.push(Message { msg_id: mid, data_saved: true });
            data_insert(&mut self.map, mid, m);
            proof {
                assert forall|k: MsgId| #[trigger] self.map@.contains_key(k) <==> (m0.contains_key(k)
                    || exists|j: int| 0 <= j < i + 1 && all[j].message_id == k) by {
                    if k == mid {
                        assert(all[i as int].message_id == k);
                    }
                }
            }
            i = i + 1;
        }
        if n == 0 {
            return;
        }
        self.calls.push(ModelCall::BeginInsertRows { first: 0, last: n - 1 });
        self.list = rows;
        self.calls.push(ModelCall::EndInsertRows);
        self.emit_last_changed();
    }

    /// Whether the message at `row_index` is stored; `false` past the end.
    pub fn data_saved(&self, row_index: usize) -> (s: bool)
        ensures
            s == (row_index < self.list@.len() && self.list@[row_index as int].data_saved),
    {
        if row_index < self.list.len() {
            self.list[row_index].data_saved
        } else {
            false
        }
    }

    /// The author of the message at `row_index`; `None` past the end or when
    /// the message is not stored.
    pub fn author(&self, row_index: usize) -> (a: Option<&str>)
        ensures
            self.stored_at(row_index as int) is None ==> a is None,
            self.stored_at(row_index as int) matches Some(m) ==> some_text(a, m.author@),
    {
        match self.stored(row_index) {
            Some(m) => Some(m.author.as_str()),
            None => None,
        }
    }

    /// The body of the message at `row_index`.
    pub fn body(&self, row_index: usize) -> (b: Option<&str>)
        ensures
            self.stored_at(row_index as int) is None ==> b is None,
            self.stored_at(row_index as int) matches Some(m) ==> crate::types::shows_text(b, m.body),
    {
        match self.stored(row_index) {
            Some(m) => match &m.body {
                Some(body) => Some(body.as_str()),
                None => None,
            },
            None => None,
        }
    }

    /// The id of the message at `row_index`; `None` past the end.
    pub fn message_id(&self, row_index: usize) -> (id: Option<&MsgId>)
        ensures
            row_index >= self.list@.len() ==> id is None,
            row_index < self.list@.len() ==> id == Some(&self.list@[row_index as int].msg_id),
    {
        if row_index < self.list.len() {
            Some(&self.list[row_index].msg_id)
        } else {
            None
        }
    }

    /// Whether the message at `row_index` has attachments; `false` when there is
    /// no stored message there.
    pub fn has_attachments(&self, row_index: usize) -> (h: bool)
        ensures
            h == (self.stored_at(row_index as int) matches Some(m) && m.has_attachments),
    {
        match self.stored(row_index) {
            Some(m) => m.has_attachments,
            None => false,
        }
    }

    /// The highest receipt status of the message at `row_index`; `NO_ACK` when
    /// it has none or there is no stored message there.
    pub fn receipt_status(&self, row_index: usize) -> (s: u32)
        ensures
            self.stored_at(row_index as int) is None ==> s == NO_ACK,
            self.stored_at(row_index as int) matches Some(m) ==> s == match max_receipt(m.receipts@) {
                Some(v) => v,
                None => NO_ACK,
            },
    {
        match self.stored(row_index) {
            Some(m) => match max_receipt_status(&m.receipts) {
                Some(v) => v,
                None => NO_ACK,
            },
            None => NO_ACK,
        }
    }

    /// The stored message whose id is the bytes `msg_id`.
    fn by_id(&self, msg_id: &[u8]) -> (m: Option<&StoredMsg>)
        ensures
            msg_id@.len() != 32 ==> m is None,
            forall|id: MsgId|
                id@ == msg_id@ ==> match m {
                    Some(r) => #[trigger] self.map@.contains_key(id) && self.map@[id] == *r,
                    None => !self.map@.contains_key(id),
                },
    {
        let id = match id_from_slice(msg_id) {
            Some(id) => id,
            None => {
                return None;
            },
        };
        let r = data_get(&self.map, &id);
        proof {
            broadcast use vstd::array::group_array_axioms;
            assert forall|other: MsgId| other@ == msg_id@ implies other == id by {
                assert(other =~= id);
            }
        }
        r
    }

    /// The body of the stored message whose id is the bytes `msg_id`; empty when
    /// there is no such message or it has no body.
    pub fn message_body_by_id(&self, msg_id: &[u8]) -> (b: String)
        ensures
            msg_id@.len() != 32 ==> b@.len() == 0,
            forall|id: MsgId|
                id@ == msg_id@ ==> (#[trigger] self.map@.contains_key(id) ==> b@ == match self.map@[id].body {
                    Some(body) => body@,
                    None => Seq::<char>::empty(),
                }) && (!self.map@.contains_key(id) ==> b@.len() == 0),
    {
        match self.by_id(msg_id) {
            Some(m) => match &m.body {
                Some(body) => body.clone(),
                None => String::new(),
            },
            None => String::new(),
        }
    }

    /// The author of the stored message whose id is the bytes `msg_id`.
    pub fn message_author_by_id(&self, msg_id: &[u8]) -> (a: Option<String>)
        ensures
            msg_id@.len() != 32 ==> a is None,
            forall|id: MsgId|
                id@ == msg_id@ ==> (#[trigger] self.map@.contains_key(id) ==> (a matches Some(s) && s@
                    == self.map@[id].author@)) && (!self.map@.contains_key(id) ==> a is None),
    {
        match self.by_id(msg_id) {
            Some(m) => Some(m.author.clone()),
            None => None,
        }
    }

    /// The message that the message at `row_index` replies to.
    pub fn op(&self, row_index: usize) -> (op: Option<&MsgId>)
        ensures
            match self.stored_at(row_index as int) {
                Some(m) => match m.op {
                    Some(o) => op == Some(&o),
                    None => op is None,
                },
                None => op is None,
            },
    {
        match self.stored(row_index) {
            Some(m) => match &m.op {
                Some(o) => Some(o),
                None => None,
            },
            None => None,
        }
    }

    /// Whether the message at `row_index` is a reply.
    pub fn is_reply(&self, row_index: usize) -> (r: bool)
        ensures
            r == (self.stored_at(row_index as int) matches Some(m) && m.op is Some),
    {
        self.op(row_index).is_some()
    }

    /// Removes the row at `row_index` and its stored message from the list,
    /// after storage deleted the message (`storage_deleted`). `false`, with
    /// nothing changed, past the end or when storage failed.
    pub fn delete_message(&mut self, row_index: u64, storage_deleted: bool) -> (ok: bool)
        ensures
            ok == ((row_index as usize) < old(self).list@.len() && storage_deleted),
            !ok ==> *final(self) == *old(self),
            ok ==> {
                let ix = row_index as usize;
                &&& deleted_row(*old(self), *final(self), ix as int)
                &&& final(self).calls@ == old(self).calls@ + seq![
                    ModelCall::BeginRemoveRows { first: ix, last: ix },
                    ModelCall::EndRemoveRows,
                ]
                &&& final(self).signals == old(self).signals
                &&& final(self).conversation_id == old(self).conversation_id
            },
    {
        let ix = row_index as usize;
        if ix >= self.list.len() || !storage_deleted {
            return false;
        }
        let id = self.list[ix].msg_id;
        self.calls.push(ModelCall::BeginRemoveRows { first: ix, last: ix });
        self.list.remove(ix);
        let _ = data_remove(&mut self.map, &id);
        self.calls.push(ModelCall::EndRemoveRows);
        true
    }

    /// Empties the list after storage deleted the conversation's messages
    /// (`storage_cleared`): the view is reset and hears of the new last message.
    /// `false`, with nothing changed, without a conversation or when storage
    /// failed.
    pub fn clear_conversation_history(&mut self, storage_cleared: bool) -> (ok: bool)
        ensures
            ok == (old(self).conversation_id is Some && storage_cleared),
            !ok ==> *final(self) == *old(self),
            ok ==> {
                &&& final(self).list@.len() == 0
                &&& final(self).map@ == Map::<MsgId, StoredMsg>::empty()
                &&& final(self).calls@ == old(self).calls@ + seq![
                    ModelCall::BeginResetModel,
                    ModelCall::EndResetModel,
                ]
                &&& final(self).signals@ == old(self).signals@ + last_signals()
                &&& final(self).conversation_id == old(self).conversation_id
            },
    {
        if self.conversation_id.is_none() || !storage_cleared {
            return false;
        }
        self.calls.push(ModelCall::BeginResetModel);
        self.list = Vec::new();
        self.map = data_new();
        self.calls.push(ModelCall::EndResetModel);
        self.emit_last_changed();
        true
    }

    /// When the message at `row_index` was sent; 0 when there is no stored
    /// message there.
    pub fn epoch_timestamp_ms(&self, row_index: usize) -> (t: i64)
        ensures
            t == match self.stored_at(row_index as int) {
                Some(m) => m.timestamp,
                None => 0,
            },
    {
        match self.stored(row_index) {
            Some(m) => m.timestamp,
            None => 0,
        }
    }

    /// Takes in one update of the conversation: a message read from storage
    /// becomes a stored last row; a composed message becomes an unstored last
    /// row, and the conversation then has new activity; a receipt replaces the
    /// receipts of a stored message with those storage now holds; a finished
    /// save marks the message's last row stored. Polling stops without a
    /// conversation, and when a receipt or save names a message no row holds or
    /// the receipts could not be read; a receipt for a message that is not
    /// stored is skipped.
    pub fn poll(&mut self, update: MsgUpdate) -> (step: PollStep)
        ensures
            old(self).conversation_id is None ==> step == PollStep::Stop && *final(self) == *old(self),
            old(self).conversation_id matches Some(cid) ==> match update {
                MsgUpdate::Msg(m) => {
                    let n = old(self).list@.len() as usize;
                    &&& step == PollStep::Continue
                    &&& final(self).list@ == old(self).list@.push(
                        (Message { msg_id: m.message_id, data_saved: true }),
                    )
                    &&& final(self).map@ == old(self).map@.insert(m.message_id, m)
                    &&& final(self).calls@ == old(self).calls@ + seq![
                        ModelCall::BeginInsertRows { first: n, last: n },
                        ModelCall::EndInsertRows,
                    ]
                    &&& final(self).signals@ == old(self).signals@ + last_signals()
                    &&& final(self).conversation_id == old(self).conversation_id
                },
                MsgUpdate::FullMsg(m) => {
                    let n = old(self).list@.len() as usize;
                    &&& step == PollStep::Activity(cid)
                    &&& final(self).list@ == old(self).list@.push(
                        (Message { msg_id: m.message_id, data_saved: false }),
                    )
                    &&& final(self).map@ == old(self).map@.insert(m.message_id, m)
                    &&& final(self).calls@ == old(self).calls@ + seq![
                        ModelCall::BeginInsertRows { first: n, last: n },
                        ModelCall::EndInsertRows,
                    ]
                    &&& final(self).signals@ == old(self).signals@ + last_signals()
                    &&& final(self).conversation_id == old(self).conversation_id
                },
                MsgUpdate::Receipt(mid, receipts) => if !old(self).map@.contains_key(mid) {
                    step == PollStep::Continue && *final(self) == *old(self)
                } else if receipts is None || last_row_of(old(self).list@, mid, None) {
                    step == PollStep::Stop && *final(self) == *old(self)
                } else {
                    &&& step == PollStep::Continue
                    &&& final(self).list == old(self).list
                    &&& final(self).map@ == old(self).map@.insert(
                        mid,
                        StoredMsg { receipts: receipts.unwrap(), ..old(self).map@[mid] },
                    )
                    &&& exists|ix: usize|
                        #[trigger] last_row_of(old(self).list@, mid, Some(ix)) && final(self).calls@
                            == old(self).calls@.push(ModelCall::DataChanged { first: ix, last: ix })
                    &&& final(self).signals == old(self).signals
                    &&& final(self).conversation_id == old(self).conversation_id
                },
                MsgUpdate::StoreDone(mid) => if last_row_of(old(self).list@, mid, None) {
                    step == PollStep::Stop && *final(self) == *old(self)
                } else {
                    &&& step == PollStep::Continue
                    &&& final(self).map == old(self).map
                    &&& exists|ix: usize|
                        #[trigger] last_row_of(old(self).list@, mid, Some(ix)) && final(self).calls@
                            == old(self).calls@.push(ModelCall::DataChanged { first: ix, last: ix })
                            && final(self).list@ == old(self).list@.update(
                            ix as int,
                            (Message { msg_id: mid, data_saved: true }),
                        )
                    &&& final(self).signals == old(self).signals
                    &&& final(self).conversation_id == old(self).conversation_id
                },
            },
    {
        if self.conversation_id.is_none() {
            return PollStep::Stop;
        }
        match update {
            MsgUpdate::Msg(m) => {
                let n = self.list.len();
                let mid = m.message_id;
                self.calls.push(ModelCall::BeginInsertRows { first: n, last: n });
                self.list.push(Message { msg_id: mid, data_saved: true });
                data_insert(&mut self.map, mid, m);
                self.calls.push(ModelCall::EndInsertRows);
                self.emit_last_changed();
                PollStep::Continue
            },
            MsgUpdate::FullMsg(m) => match self.raw_insert(m, false) {
                Ok(cid) => PollStep::Activity(cid),
                Err(_) => PollStep::Stop,
            },
            MsgUpdate::Receipt(mid, receipts) => {
                if data_get(&self.map, &mid).is_none() {
                    return PollStep::Continue;
                }
                let ix = match rposition_id(&self.list, &mid) {
                    Some(ix) => ix,
                    None => {
                        return PollStep::Stop;
                    },
                };
                let receipts = match receipts {
                    Some(r) => r,
                    None => {
                        return PollStep::Stop;
                    },
                };
                let ghost m0 = self.map@;
                let mut msg = data_remove(&mut self.map, &mid).unwrap();
                msg.receipts = receipts;
                data_insert(&mut self.map, mid, msg);
                assert(self.map@ =~= m0.insert(mid, StoredMsg { receipts: receipts, ..m0[mid] }));
                self.calls.push(ModelCall::DataChanged { first: ix, last: ix });
                PollStep::Continue
            },
            MsgUpdate::StoreDone(mid) => {
                let ix = match rposition_id(&self.list, &mid) {
                    Some(ix) => ix,
                    None => {
                        return PollStep::Stop;
                    },
                };
                self.list.set(ix, Message { msg_id: mid, data_saved: true });
                self.calls.push(ModelCall::DataChanged { first: ix, last: ix });
                PollStep::Continue
            },
        }
    }

    /// The number of rows.
    pub fn row_count(&self) -> (n: usize)
        ensures
            n == self.list@.len(),
    {
        self.list.len()
    }
}

} // verus!
