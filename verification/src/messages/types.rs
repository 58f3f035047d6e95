//! The values that the message list keeps per message.
use crate::types::{ids_equal, users_equal, MsgId, Time, UserId};
use vstd::prelude::*;

verus! {

/// Two messages by one author less than this many milliseconds apart are
/// drawn as one flurry.
pub const FLURRY_FUZZ: i64 = 300000;

/// The receipt status of a message that nobody has acknowledged.
pub const NO_ACK: u32 = 0;

/// The times of a message.
#[derive(Clone, Copy)]
pub struct MessageTime {
    /// When the message was stored locally.
    pub insertion: Time,
    /// When the server saw it, if it did.
    pub server: Option<Time>,
    /// When it expires, if it does.
    pub expiration: Option<Time>,
}

/// What a message replies to.
#[derive(Clone, Copy)]
pub enum ReplyId {
    /// It is no reply.
    NoReply,
    /// It replied to a message that is gone.
    Dangling,
    /// It replies to the message with this id.
    Known(MsgId),
}

/// The kind of reply, without the id.
#[derive(Clone, Copy, Debug, PartialEq, Eq)]
pub enum ReplyType {
    NoReply,
    Dangling,
    Known,
}

/// How a message stands with respect to the current search.
#[derive(Clone, Copy, Debug, PartialEq, Eq, Structural)]
pub enum MatchStatus {
    NotMatched,
    Matched,
    Focused,
}

/// Whether a message has reached local storage.
#[derive(Clone, Copy, Debug, PartialEq, Eq)]
pub enum SaveStatus {
    Saved,
    Unsaved,
}

/// The kind of a reply id.
pub open spec fn spec_reply_type(op: ReplyId) -> ReplyType {
    match op {
        ReplyId::NoReply => ReplyType::NoReply,
        ReplyId::Dangling => ReplyType::Dangling,
        ReplyId::Known(_) => ReplyType::Known,
    }
}

/// The kind of a reply id.
pub fn reply_type(op: &ReplyId) -> (t: ReplyType)
    ensures
        t == spec_reply_type(*op),
{
    match op {
        ReplyId::NoReply => ReplyType::NoReply,
        ReplyId::Dangling => ReplyType::Dangling,
        ReplyId::Known(_) => ReplyType::Known,
    }
}

impl ReplyType {
    /// The number by which the view knows the reply type.
    pub fn code(&self) -> (c: u8)
        ensures
            c == (match *self {
                ReplyType::NoReply => 0u8,
                ReplyType::Dangling => 1u8,
                ReplyType::Known => 2u8,
            }),
    {
        match self {
            ReplyType::NoReply => 0,
            ReplyType::Dangling => 1,
            ReplyType::Known => 2,
        }
    }
}

impl MatchStatus {
    /// Whether the message matches the search, focused or not.
    pub open spec fn spec_is_match(self) -> bool {
        self != MatchStatus::NotMatched
    }

    /// Whether the message matches the search, focused or not.
    pub fn is_match(&self) -> (m: bool)
        ensures
            m == self.spec_is_match(),
    {
        match self {
            MatchStatus::NotMatched => false,
            _ => true,
        }
    }

    /// The number by which the view knows the match status.
    pub fn code(&self) -> (c: u8)
        ensures
            c == (match *self {
                MatchStatus::NotMatched => 0u8,
                MatchStatus::Matched => 1u8,
                MatchStatus::Focused => 2u8,
            }),
    {
        match self {
            MatchStatus::NotMatched => 0,
            MatchStatus::Matched => 1,
            MatchStatus::Focused => 2,
        }
    }
}

/// A message as storage hands it over.
pub struct Msg {
    pub message_id: MsgId,
    pub author: UserId,
    pub body: Option<String>,
    pub time: MessageTime,
    pub op: ReplyId,
    /// The receipt status that each recipient reported.
    pub receipts: Vec<u32>,
    pub replies: Vec<MsgId>,
    pub has_attachments: bool,
    pub send_status: u8,
}

/// What the message list keeps of a message, beside its place in the list.
pub struct MsgData {
    pub author: UserId,
    pub body: Option<String>,
    pub time: MessageTime,
    pub op: ReplyId,
    /// The receipt status that each recipient reported.
    pub receipts: Vec<u32>,
    /// The messages that reply to this one.
    pub replies: Vec<MsgId>,
    pub has_attachments: bool,
    pub save_status: SaveStatus,
    pub send_status: u8,
    pub match_status: MatchStatus,
}

/// The key of a message in the ordered list: its id and insertion time.
#[derive(Clone, Copy)]
pub struct Message {
    pub msg_id: MsgId,
    pub insertion_time: Time,
}

/// Whether two messages by these authors at these times belong to one flurry.
pub open spec fn spec_same_flurry(a: MsgData, b: MsgData) -> bool {
    &&& a.author@ == b.author@
    &&& -FLURRY_FUZZ < a.time.insertion - b.time.insertion < FLURRY_FUZZ
}

impl MsgData {
    /// Whether this message and `rhs` are by the same author and less than
    /// `FLURRY_FUZZ` milliseconds apart.
    pub fn same_flurry(&self, rhs: &Self) -> (same: bool)
        ensures
            same == spec_same_flurry(*self, *rhs),
    {
        let diff: i128 = (self.time.insertion as i128) - (rhs.time.insertion as i128);
        let fuzz: i128 = FLURRY_FUZZ as i128;
        users_equal(&self.author, &rhs.author) && -fuzz < diff && diff < fuzz
    }

    /// Whether the message matches a search: it must have a body, and
    /// `body_matches` says whether the pattern matches that body.
    pub fn matches(&self, body_matches: bool) -> (m: bool)
        ensures
            m == (self.body.is_some() && body_matches),
    {
        match self.body {
            Some(_) => body_matches,
            None => false,
        }
    }
}

/// The largest receipt status, if there is any receipt.
pub open spec fn max_receipt(receipts: Seq<u32>) -> Option<u32>
    decreases receipts.len(),
{
    if receipts.len() == 0 {
        None
    } else {
        let rest = max_receipt(receipts.drop_last());
        match rest {
            None => Some(receipts.last()),
            Some(m) => Some(if m >= receipts.last() { m } else { receipts.last() }),
        }
    }
}

/// The largest receipt status in `receipts`, `None` when there is none.
pub fn max_receipt_status(receipts: &Vec<u32>) -> (m: Option<u32>)
    ensures
        m == max_receipt(receipts@),
        m matches Some(v) ==> receipts@.contains(v) && forall|i: int|
            0 <= i < receipts@.len() ==> receipts@[i] <= v,
        m is None <==> receipts@.len() == 0,
{
    let mut best: Option<u32> = None;
    let mut i: usize = 0;
    while i < receipts.len()
        invariant
            i <= receipts@.len(),
            best == max_receipt(receipts@.take(i as int)),
            best matches Some(v) ==> receipts@.take(i as int).contains(v) && forall|j: int|
                0 <= j < i ==> receipts@[j] <= v,
            best is None <==> i == 0,
        decreases receipts@.len() - i,
    {
        let r = receipts[i];
        assert(receipts@.take(i + 1).drop_last() =~= receipts@.take(i as int));
        best = match best {
            None => Some(r),
            Some(b) => Some(if b >= r { b } else { r }),
        };
        proof {
            let t = receipts@.take(i + 1);
            assert(t.last() == r);
            match best {
                Some(v) => {
                    if v == r {
                        assert(t[i as int] == r);
                    } else {
                        let k = choose|k: int| 0 <= k < i && receipts@.take(i as int)[k] == v;
                        assert(t[k] == v);
                    }
                },
                None => {},
            }
        }
        i = i + 1;
    }
    assert(receipts@.take(receipts@.len() as int) =~= receipts@);
    best
}

/// The data of a message together with its key, as `Msg` splits into them.
pub open spec fn split_of(msg: Msg, save_status: SaveStatus) -> (Message, MsgData) {
    (
        Message { msg_id: msg.message_id, insertion_time: msg.time.insertion },
        MsgData {
            author: msg.author,
            body: msg.body,
            time: msg.time,
            op: msg.op,
            receipts: msg.receipts,
            replies: msg.replies,
            has_attachments: msg.has_attachments,
            save_status,
            send_status: msg.send_status,
            match_status: MatchStatus::NotMatched,
        },
    )
}

/// Splits a stored message into its key in the list and its data.
pub fn split_msg(msg: Msg, save_status: SaveStatus) -> (parts: (Message, MsgData))
    ensures
        parts == split_of(msg, save_status),
{
    let Msg {
        message_id,
        author,
        body,
        time,
        op,
        receipts,
        replies,
        has_attachments,
        send_status,
    } = msg;
    let data = MsgData {
        author,
        body,
        time,
        op,
        receipts,
        replies,
        has_attachments,
        save_status,
        send_status,
        match_status: MatchStatus::NotMatched,
    };
    let message = Message { msg_id: message_id, insertion_time: time.insertion };
    (message, data)
}

/// Whether the message with id `id` is among `ids`.
pub fn contains_id(ids: &Vec<MsgId>, id: &MsgId) -> (found: bool)
    ensures
        found == ids@.contains(*id),
{
    let mut i: usize = 0;
    while i < ids.len()
        invariant
            i <= ids@.len(),
            forall|j: int| 0 <= j < i ==> ids@[j] != *id,
        decreases ids@.len() - i,
    {
        if ids_equal(&ids[i], id) {
            return true;
        }
        i = i + 1;
    }
    false
}

} // verus!
