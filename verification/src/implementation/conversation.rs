//! The classic view of one conversation: its metadata and its messages in the
//! order they arrived. Changes are told to the view through two outboxes.
use crate::signal::ModelCall;
use crate::types::{id_from_slice, ConversationId, MsgId, UserId};
use vstd::prelude::*;

verus! {

/// What storage keeps about a conversation.
pub struct ConversationMeta {
    pub conversation_id: ConversationId,
    pub title: Option<String>,
    pub picture: Option<String>,
    pub color: u32,
    pub muted: bool,
    pub pairwise: bool,
}

/// A message of the conversation.
pub struct Message {
    pub author: UserId,
    pub body: String,
    pub conversation: ConversationId,
    pub message_id: MsgId,
    /// The message this one replies to.
    pub op: Option<MsgId>,
    /// When it was sent, in milliseconds since the epoch.
    pub timestamp: i64,
}

/// The property signals of the conversation view.
#[derive(Clone, Copy, Debug, PartialEq, Eq)]
pub enum ConversationSignal {
    ColorChanged,
    MutedChanged,
    PictureChanged,
    ConversationIdChanged,
}

/// The classic view of one conversation.
pub struct Conversation {
    pub signals: Vec<ConversationSignal>,
    pub calls: Vec<ModelCall>,
    pub list: Vec<Message>,
    pub meta: Option<ConversationMeta>,
    pub local_id: UserId,
    /// When the messages were last brought up to date, in milliseconds since the epoch.
    pub updated: i64,
}

/// The message that the local user `author` adds to conversation `cid`, with
/// the id and time that storage gave it.
pub open spec fn composed(author: UserId, body: String, cid: ConversationId, id: MsgId, op: Option<MsgId>, timestamp: i64) -> Message {
    Message { author, body, conversation: cid, message_id: id, op, timestamp }
}

/// Switching to the conversation whose id is the bytes `b` is ignored: they are
/// no id, the id is the current one `cur`, or its metadata could not be read.
pub open spec fn switch_ignored(b: Seq<u8>, cur: Option<ConversationId>, meta_failed: bool) -> bool {
    b.len() != 32 || (cur matches Some(c) && c@ == b) || meta_failed
}

impl Conversation {
    /// The id of the current conversation.
    pub open spec fn cid(&self) -> Option<ConversationId> {
        match self.meta {
            Some(m) => Some(m.conversation_id),
            None => None,
        }
    }

    /// A view with no conversation, for the local user `local_id`, brought up
    /// to date at `now`.
    pub fn new(local_id: UserId, now: i64) -> (c: Conversation)
        ensures
            c.list@.len() == 0,
            c.meta is None,
            c.signals@.len() == 0,
            c.calls@.len() == 0,
            c.local_id == local_id,
            c.updated == now,
    {
        Conversation {
            signals: Vec::new(),
            calls: Vec::new(),
            list: Vec::new(),
            meta: None,
            local_id,
            updated: now,
        }
    }

    /// The id of the current conversation.
    pub fn current_cid(&self) -> (c: Option<ConversationId>)
        ensures
            c == self.cid(),
    {
        match &self.meta {
            Some(m) => Some(m.conversation_id),
            None => None,
        }
    }

    /// Appends a message by the local user with text `body`, replying to `op`,
    /// which storage added as `added` (its id and time; `None` when adding
    /// failed). The view is up to date from `now` on, whatever happens. Hands
    /// back the new message's id; `None` without a conversation or when storage
    /// failed.
    pub fn raw_insert(&mut self, body: String, op: Option<MsgId>, added: Option<(MsgId, i64)>, now: i64) -> (id: Option<MsgId>)
        ensures
            final(self).updated == now,
            final(self).meta == old(self).meta,
            final(self).signals == old(self).signals,
            final(self).local_id == old(self).local_id,
            id is None <==> (old(self).meta is None || added is None),
            id is None ==> final(self).list == old(self).list && final(self).calls == old(self).calls,
            id is Some ==> {
                let n = old(self).list@.len() as usize;
                let (mid, ts) = added.unwrap();
                &&& id == Some(mid)
                &&& final(self).list@ == old(self).list@.push(
                    composed(old(self).local_id, body, old(self).cid().unwrap(), mid, op, ts),
                )
                &&& final(self).calls@ == old(self).calls@ + seq![
                    ModelCall::BeginInsertRows { first: n, last: n },
                    ModelCall::EndInsertRows,
                ]
            },
    {
        self.updated = now;
        let cid = match self.current_cid() {
            Some(c) => c,
            None => {
                return None;
            },
        };
        let (msg_id, timestamp) = match added {
            Some(a) => a,
            None => {
                return None;
            },
        };
        let msg = Message {
            author: self.local_id.clone(),
            body,
            conversation: cid,
            message_id: msg_id,
            op,
            timestamp,
        };
        let n = self.list.len();
        self.calls.push(ModelCall::BeginInsertRows { first: n, last: n });
        self.list.push(msg);
        self.calls.push(ModelCall::EndInsertRows);
        Some(msg_id)
    }

    /// Whether the conversation is a pairwise one; `false` without one.
    pub fn pairwise(&self) -> (p: bool)
        ensures
            p == (self.meta matches Some(m) && m.pairwise),
    {
        match &self.meta {
            Some(m) => m.pairwise,
            None => false,
        }
    }

    /// The conversation's color; 0 without one.
    pub fn color(&self) -> (c: u32)
        ensures
            c == match self.meta {
                Some(m) => m.color,
                None => 0,
            },
    {
        match &self.meta {
            Some(m) => m.color,
            None => 0,
        }
    }

    /// Whether the conversation is muted; `false` without one.
    pub fn muted(&self) -> (b: bool)
        ensures
            b == (self.meta matches Some(m) && m.muted),
    {
        match &self.meta {
            Some(m) => m.muted,
            None => false,
        }
    }

    /// The conversation's title.
    pub fn title(&self) -> (t: Option<&str>)
        ensures
            match self.meta {
                Some(m) => crate::types::shows_text(t, m.title),
                None => t is None,
            },
    {
        match &self.meta {
            Some(m) => match &m.title {
                Some(t) => Some(t.as_str()),
                None => None,
            },
            None => None,
        }
    }

    /// The conversation's picture.
    pub fn picture(&self) -> (p: Option<&str>)
        ensures
            match self.meta {
                Some(m) => crate::types::shows_text(p, m.picture),
                None => p is None,
            },
    {
        match &self.meta {
            Some(m) => match &m.picture {
                Some(p) => Some(p.as_str()),
                None => None,
            },
            None => None,
        }
    }

    /// Sets the conversation's color once storage did (`stored`), and tells
    /// the view. Nothing changes without a conversation or when storage failed.
    pub fn set_color(&mut self, color: u32, stored: bool)
        ensures
            final(self).list == old(self).list,
            final(self).calls == old(self).calls,
            old(self).meta is None || !stored ==> *final(self) == *old(self),
            old(self).meta is Some && stored ==> final(self).meta == Some(
                (ConversationMeta { color, ..old(self).meta.unwrap() }),
            ) && final(self).signals@ == old(self).signals@.push(ConversationSignal::ColorChanged),
    {
        if !stored {
            return;
        }
        match &mut self.meta {
            Some(m) => {
                m.color = color;
            },
            None => {
                return;
            },
        }
        self.signals.push(ConversationSignal::ColorChanged);
    }

    /// Sets whether the conversation is muted once storage did (`stored`), and
    /// tells the view. Nothing changes without a conversation or when storage failed.
    pub fn set_muted(&mut self, muted: bool, stored: bool)
        ensures
            final(self).list == old(self).list,
            final(self).calls == old(self).calls,
            old(self).meta is None || !stored ==> *final(self) == *old(self),
            old(self).meta is Some && stored ==> final(self).meta == Some(
                (ConversationMeta { muted, ..old(self).meta.unwrap() }),
            ) && final(self).signals@ == old(self).signals@.push(ConversationSignal::MutedChanged),
    {
        if !stored {
            return;
        }
        match &mut self.meta {
            Some(m) => {
                m.muted = muted;
            },
            None => {
                return;
            },
        }
        self.signals.push(ConversationSignal::MutedChanged);
    }

    /// Sets the conversation's title once storage did (`stored`). Nothing
    /// changes without a conversation or when storage failed.
    pub fn set_title(&mut self, title: Option<String>, stored: bool)
        ensures
            final(self).list == old(self).list,
            final(self).calls == old(self).calls,
            final(self).signals == old(self).signals,
            old(self).meta is None || !stored ==> *final(self) == *old(self),
            old(self).meta is Some && stored ==> final(self).meta == Some(
                (ConversationMeta { title, ..old(self).meta.unwrap() }),
            ),
    {
        if !stored {
            return;
        }
        match &mut self.meta {
            Some(m) => {
                m.title = title;
            },
            None => {},
        }
    }

    /// Sets the conversation's picture once storage did (`stored`), and tells
    /// the view. Nothing changes without a conversation or when storage failed.
    pub fn set_picture(&mut self, picture: Option<String>, stored: bool)
        ensures
            final(self).list == old(self).list,
            final(self).calls == old(self).calls,
            old(self).meta is None || !stored ==> *final(self) == *old(self),
            old(self).meta is Some && stored ==> final(self).meta == Some(
                (ConversationMeta { picture, ..old(self).meta.unwrap() }),
            ) && final(self).signals@ == old(self).signals@.push(ConversationSignal::PictureChanged),
    {
        if !stored {
            return;
        }
        match &mut self.meta {
            Some(m) => {
                m.picture = picture;
            },
            None => {
                return;
            },
        }
        self.signals.push(ConversationSignal::PictureChanged);
    }

    /// Switches the view to the conversation whose id is the bytes
    /// `conversation_id`, given what storage holds for it: its metadata
    /// (`meta`, `None` when reading failed) and its messages (`messages`, the
    /// same). Bytes that are no id, or the current conversation, change
    /// nothing; so does failing metadata. Otherwise the metadata is taken, the
    /// view hears of the new id and is reset, and the messages, when they were
    /// read and there are any, become the rows. With no id, a view that shows a
    /// conversation is reset to no rows, keeping its metadata.
    pub fn set_conversation_id(
        &mut self,
        conversation_id: Option<&[u8]>,
        meta: Option<ConversationMeta>,
        messages: Option<Vec<Message>>,
    )
        ensures
            final(self).local_id == old(self).local_id,
            final(self).updated == old(self).updated,
            conversation_id is None ==> if (old(self).meta is None) {
                *final(self) == *old(self)
            } else {
                &&& final(self).meta == old(self).meta
                &&& final(self).list@.len() == 0
                &&& final(self).signals@ == old(self).signals@.push(ConversationSignal::ConversationIdChanged)
                &&& final(self).calls@ == old(self).calls@ + seq![
                    ModelCall::BeginResetModel,
                    ModelCall::EndResetModel,
                ]
            },
            conversation_id matches Some(b) && switch_ignored(b@, old(self).cid(), meta is None) ==> *final(self) == *old(self),
            conversation_id matches Some(b) && !switch_ignored(b@, old(self).cid(), meta is None) ==> {
                let reset = old(self).calls@ + seq![ModelCall::BeginResetModel, ModelCall::EndResetModel];
                &&& final(self).meta == meta
                &&& final(self).signals@ == old(self).signals@.push(ConversationSignal::ConversationIdChanged)
                &&& match messages {
                    Some(ms) if ms@.len() > 0 => final(self).list@ == ms@ && final(self).calls@ == reset
                        + seq![
                        ModelCall::BeginInsertRows { first: 0, last: (ms@.len() - 1) as usize },
                        ModelCall::EndInsertRows,
                    ],
                    _ => final(self).list@.len() == 0 && final(self).calls@ == reset,
                }
            },
    {
        match conversation_id {
            Some(bytes) => {
                let id = match id_from_slice(bytes) {
                    Some(id) => id,
                    None => {
                        return;
                    },
                };
                match self.current_cid() {
                    Some(c) => {
                        if crate::types::ids_equal(&c, &id) {
                            return;
                        }
                        proof {
                            broadcast use vstd::array::group_array_axioms;
                            if c@ == id@ {
                                assert(c =~= id);
                            }
                        }
                    },
                    None => {},
                }
                let meta = match meta {
                    Some(m) => m,
                    None => {
                        return;
                    },
                };
                self.meta = Some(meta);
                self.signals.push(ConversationSignal::ConversationIdChanged);
                self.calls.push(ModelCall::BeginResetModel);
                self.list = Vec::new();
                self.calls.push(ModelCall::EndResetModel);
                let messages = match messages {
                    Some(ms) => ms,
                    None => {
                        return;
                    },
                };
                if messages.len() == 0 {
                    return;
                }
                let n = messages.len();
                self.calls.push(ModelCall::BeginInsertRows { first: 0, last: n - 1 });
                self.list = messages;
                self.calls.push(ModelCall::EndInsertRows);
            },
            None => {
                if self.meta.is_none() {
                    return;
                }
                self.signals.push(ConversationSignal::ConversationIdChanged);
                self.calls.push(ModelCall::BeginResetModel);
                self.list = Vec::new();
                self.calls.push(ModelCall::EndResetModel);
            },
        }
    }

    /// The author of the message at `row_index`; empty past the end.
    pub fn author(&self, row_index: usize) -> (a: &str)
        ensures
            row_index < self.list@.len() ==> a@ == self.list@[row_index as int].author@,
            row_index >= self.list@.len() ==> a@ == ""@,
    {
        if row_index < self.list.len() {
            self.list[row_index].author.as_str()
        } else {
            ""
        }
    }

    /// The body of the message at `row_index`; empty past the end.
    pub fn body(&self, row_index: usize) -> (b: &str)
        ensures
            row_index < self.list@.len() ==> b@ == self.list@[row_index as int].body@,
            row_index >= self.list@.len() ==> b@ == ""@,
    {
        if row_index < self.list.len() {
            self.list[row_index].body.as_str()
        } else {
            ""
        }
    }

    /// The id of the message at `row_index`.
    pub fn message_id(&self, row_index: usize) -> (id: Option<&MsgId>)
        ensures
            row_index >= self.list@.len() ==> id is None,
            row_index < self.list@.len() ==> id == Some(&self.list@[row_index as int].message_id),
    {
        if row_index < self.list.len() {
            Some(&self.list[row_index].message_id)
        } else {
            None
        }
    }

    /// The message that the message at `row_index` replies to.
    pub fn op(&self, row_index: usize) -> (op: Option<&MsgId>)
        ensures
            row_index >= self.list@.len() ==> op is None,
            row_index < self.list@.len() ==> match self.list@[row_index as int].op {
                Some(o) => op == Some(&o),
                None => op is None,
            },
    {
        if row_index < self.list.len() {
            match &self.list[row_index].op {
                Some(o) => Some(o),
                None => None,
            }
        } else {
            None
        }
    }

    /// The id of the current conversation.
    pub fn conversation_id(&self) -> (c: Option<&ConversationId>)
        ensures
            match self.meta {
                Some(m) => c == Some(&m.conversation_id),
                None => c is None,
            },
    {
        match &self.meta {
            Some(m) => Some(&m.conversation_id),
            None => None,
        }
    }

    /// Adds a message with text `body` that storage added as `added`, at `now`.
    pub fn insert_message(&mut self, body: String, added: Option<(MsgId, i64)>, now: i64) -> (id: Option<MsgId>)
        ensures
            final(self).updated == now,
            final(self).meta == old(self).meta,
            id is None <==> (old(self).meta is None || added is None),
            id is None ==> final(self).list == old(self).list && final(self).calls == old(self).calls,
            id is Some ==> id == Some(added.unwrap().0) && final(self).list@ == old(self).list@.push(
                composed(old(self).local_id, body, old(self).cid().unwrap(), added.unwrap().0, None, added.unwrap().1),
            ),
    {
        self.raw_insert(body, None, added, now)
    }

    /// Adds a reply with text `body` to the message whose id is the bytes `op`,
    /// which storage added as `added`, at `now`. Bytes that are no id change nothing.
    pub fn reply(&mut self, body: String, op: &[u8], added: Option<(MsgId, i64)>, now: i64) -> (id: Option<MsgId>)
        ensures
            op@.len() != 32 ==> id is None && *final(self) == *old(self),
            op@.len() == 32 ==> {
                &&& final(self).updated == now
                &&& final(self).meta == old(self).meta
                &&& id is None <==> (old(self).meta is None || added is None)
                &&& id is None ==> final(self).list == old(self).list
                &&& id is Some ==> id == Some(added.unwrap().0) && exists|o: MsgId|
                    o@ == op@ && final(self).list@ == old(self).list@.push(
                        #[trigger] composed(old(self).local_id, body, old(self).cid().unwrap(), added.unwrap().0, Some(o), added.unwrap().1),
                    )
            },
    {
        let op = match id_from_slice(op) {
            Some(o) => o,
            None => {
                return None;
            },
        };
        self.raw_insert(body, Some(op), added, now)
    }

    /// Removes the message at `row_index` once storage deleted it (`storage_deleted`).
    pub fn delete_message(&mut self, row_index: u64, storage_deleted: bool) -> (ok: bool)
        requires
            (row_index as usize) < old(self).list@.len(),
        ensures
            ok == storage_deleted,
            !ok ==> *final(self) == *old(self),
            ok ==> {
                let ix = row_index as usize;
                &&& final(self).list@ == old(self).list@.remove(ix as int)
                &&& final(self).calls@ == old(self).calls@ + seq![
                    ModelCall::BeginRemoveRows { first: ix, last: ix },
                    ModelCall::EndRemoveRows,
                ]
                &&& final(self).meta == old(self).meta
                &&& final(self).signals == old(self).signals
            },
    {
        let ix = row_index as usize;
        if !storage_deleted {
            return false;
        }
        self.calls.push(ModelCall::BeginRemoveRows { first: ix, last: ix });
        self.list.remove(ix);
        self.calls.push(ModelCall::EndRemoveRows);
        true
    }

    /// Drops the conversation from the view once storage deleted its messages
    /// (`storage_cleared`). `false`, with nothing changed, without a
    /// conversation or when storage failed.
    pub fn delete_conversation(&mut self, storage_cleared: bool) -> (ok: bool)
        ensures
            ok == (old(self).meta is Some && storage_cleared),
            !ok ==> *final(self) == *old(self),
            ok ==> final(self).list@.len() == 0 && final(self).meta is None && final(self).calls@
                == old(self).calls@ + seq![ModelCall::BeginResetModel, ModelCall::EndResetModel]
                && final(self).signals == old(self).signals,
    {
        if self.meta.is_none() || !storage_cleared {
            return false;
        }
        self.calls.push(ModelCall::BeginResetModel);
        self.list = Vec::new();
        self.meta = None;
        self.calls.push(ModelCall::EndResetModel);
        true
    }

    /// When the message at `row_index` was sent; 0 past the end.
    pub fn epoch_timestamp_ms(&self, row_index: usize) -> (t: i64)
        ensures
            t == if row_index < self.list@.len() {
                self.list@[row_index as int].timestamp
            } else {
                0
            },
    {
        if row_index < self.list.len() {
            self.list[row_index].timestamp
        } else {
            0
        }
    }

    /// Whether the messages of the conversation whose id is the bytes `id` were
    /// deleted: the bytes must be an id and storage must have succeeded
    /// (`storage_cleared`). The view stays as it is.
    pub fn delete_conversation_by_id(&self, id: &[u8], storage_cleared: bool) -> (ok: bool)
        ensures
            ok == (id@.len() == 32 && storage_cleared),
    {
        match id_from_slice(id) {
            Some(_) => storage_cleared,
            None => false,
        }
    }

    /// Empties the view without touching storage.
    pub fn clear_conversation_view(&mut self)
        ensures
            final(self).list@.len() == 0,
            final(self).calls@ == old(self).calls@ + seq![ModelCall::BeginResetModel, ModelCall::EndResetModel],
            final(self).meta == old(self).meta,
            final(self).signals == old(self).signals,
            final(self).updated == old(self).updated,
    {
        self.calls.push(ModelCall::BeginResetModel);
        self.list = Vec::new();
        self.calls.push(ModelCall::EndResetModel);
    }

    /// Appends the messages that storage holds since the last update (`new`,
    /// `None` when reading failed), and records `now` as the time of this
    /// update. `false` only when reading failed; without a conversation nothing
    /// happens.
    pub fn refresh(&mut self, new: Option<Vec<Message>>, now: i64) -> (ok: bool)
        requires
            new matches Some(v) ==> old(self).list@.len() + v@.len() <= usize::MAX,
        ensures
            final(self).meta == old(self).meta,
            final(self).signals == old(self).signals,
            ok == (old(self).meta is None || new is Some),
            old(self).meta is None || new is None ==> *final(self) == *old(self),
            old(self).meta is Some && new is Some ==> {
                let v = new.unwrap()@;
                let n = old(self).list@.len();
                &&& final(self).updated == now
                &&& final(self).list@ == old(self).list@ + v
                &&& v.len() == 0 ==> final(self).calls == old(self).calls
                &&& v.len() > 0 ==> final(self).calls@ == old(self).calls@ + seq![
                    ModelCall::BeginInsertRows { first: n as usize, last: (n + v.len() - 1) as usize },
                    ModelCall::EndInsertRows,
                ]
            },
    {
        if self.meta.is_none() {
            return true;
        }
        let mut new = match new {
            Some(v) => v,
            None => {
                return false;
            },
        };
        self.updated = now;
        if new.len() == 0 {
            return true;
        }
        let n = self.list.len();
        let last = (n + new.len()).saturating_sub(1);
        self.calls.push(ModelCall::BeginInsertRows { first: n, last });
        self.list.append(&mut new);
        self.calls.push(ModelCall::EndInsertRows);
        true
    }

    /// The number of rows.
    pub fn row_count(&self) -> (n: usize)
        ensures
            n == self.list@.len(),
    {
        self.list.len()
    }
}

} // verus!
