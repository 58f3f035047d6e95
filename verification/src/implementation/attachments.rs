//! The classic list of the attachments of one message: their paths.
use crate::signal::ModelCall;
use crate::types::{id_from_slice, MsgId};
use vstd::prelude::*;

verus! {

/// The property signals of the attachment list.
#[derive(Clone, Copy, Debug, PartialEq, Eq)]
pub enum AttachmentsSignal {
    MsgIdChanged,
}

/// The attachments of one message.
pub struct Attachments {
    pub signals: Vec<AttachmentsSignal>,
    pub calls: Vec<ModelCall>,
    pub msg_id: Option<MsgId>,
    pub inner: Vec<String>,
}

impl Attachments {
    /// An empty list, bound to no message.
    pub fn new() -> (a: Attachments)
        ensures
            a.msg_id is None,
            a.inner@.len() == 0,
            a.signals@.len() == 0,
            a.calls@.len() == 0,
    {
        Attachments { signals: Vec::new(), calls: Vec::new(), msg_id: None, inner: Vec::new() }
    }

    /// The id of the message.
    pub fn msg_id(&self) -> (m: Option<&MsgId>)
        ensures
            match self.msg_id {
                Some(id) => m == Some(&id),
                None => m is None,
            },
    {
        match &self.msg_id {
            Some(id) => Some(id),
            None => None,
        }
    }

    /// Binds the list, once, to the message whose id is the bytes `msg_id`,
    /// telling the view; `paths` are the attachment paths that storage read for
    /// it (`None` when reading failed), which become the rows when there are
    /// any. Nothing happens when the list is bound already or no id is given.
    pub fn set_msg_id(&mut self, msg_id: Option<&[u8]>, paths: Option<Vec<String>>)
        ensures
            old(self).msg_id is Some || !(msg_id matches Some(b) && b@.len() == 32) ==> *final(self) == *old(self),
            old(self).msg_id is None && (msg_id matches Some(b) && b@.len() == 32) ==> {
                &&& final(self).msg_id matches Some(id) && id@ == msg_id.unwrap()@
                &&& final(self).signals@ == old(self).signals@.push(AttachmentsSignal::MsgIdChanged)
                &&& match paths {
                    Some(v) if v@.len() > 0 => final(self).inner@ == v@ && final(self).calls@ == old(self).calls@ + seq![
                        ModelCall::BeginInsertRows { first: 0, last: (v@.len() - 1) as usize },
                        ModelCall::EndInsertRows,
                    ],
                    _ => final(self).inner == old(self).inner && final(self).calls == old(self).calls,
                }
            },
    {
        if self.msg_id.is_some() {
            return;
        }
        let bytes = match msg_id {
            Some(b) => b,
            None => {
                return;
            },
        };
        let id = match id_from_slice(bytes) {
            Some(id) => id,
            None => {
                return;
            },
        };
        self.msg_id = Some(id);
        self.signals.push(AttachmentsSignal::MsgIdChanged);
        let paths = match paths {
            Some(v) => v,
            None => {
                return;
            },
        };
        if paths.len() == 0 {
            return;
        }
        let last = paths.len() - 1;
        self.calls.push(ModelCall::BeginInsertRows { first: 0, last });
        self.inner = paths;
        self.calls.push(ModelCall::EndInsertRows);
    }

    /// The number of attachments.
    pub fn row_count(&self) -> (n: usize)
        ensures
            n == self.inner@.len(),
    {
        self.inner.len()
    }

    /// The path of the attachment at `index`; empty past the end.
    pub fn attachment_path(&self, index: usize) -> (p: &str)
        ensures
            index < self.inner@.len() ==> p@ == self.inner@[index as int]@,
            index >= self.inner@.len() ==> p@ == ""@,
    {
        if index < self.inner.len() {
            self.inner[index].as_str()
        } else {
            ""
        }
    }
}

} // verus!
