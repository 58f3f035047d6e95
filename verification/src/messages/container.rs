//! The messages of one conversation: their keys in order of insertion time,
//! and their data by id.
use super::store::{
    belongs_at, data_get, data_insert, data_new, data_remove, found_at, key_seq, keys_get,
    keys_insert, keys_last, keys_len, keys_new, keys_remove, keys_search_time, sorted_by_time,
    DataMap,
};
use super::types::{
    split_msg, split_of, Msg, SaveStatus, contains_id, reply_type, spec_reply_type, MatchStatus, Message, MsgData, ReplyId, ReplyType,
};
use crate::interface::messages::MessagesList;
use crate::signal::{after_call, after_calls, lemma_calls_none, lemma_calls_push, ModelCall};
use crate::types::{ids_equal, MsgId, Time, UserId};
use vstd::prelude::*;

verus! {

/// Some key of `s` has id `id`.
pub open spec fn has_id(s: Seq<Message>, id: MsgId) -> bool {
    exists|i: int| 0 <= i < s.len() && #[trigger] s[i].msg_id == id
}

/// A clean container: keys sorted by insertion time, ids distinct, and exactly
/// the ids of the keys mapped to data with the key's time. Every container is
/// clean until a message whose id it holds goes in a second time.
pub open spec fn container_wf(s: Seq<Message>, d: Map<MsgId, MsgData>) -> bool {
    &&& sorted_by_time(s)
    &&& forall|i: int, j: int| 0 <= i < j < s.len() ==> s[i].msg_id != s[j].msg_id
    &&& forall|i: int|
        0 <= i < s.len() ==> #[trigger] d.contains_key(s[i].msg_id) && d[s[i].msg_id].time.insertion
            == s[i].insertion_time
    &&& forall|k: MsgId| #[trigger] d.contains_key(k) ==> has_id(s, k)
}

/// Some key of `s` has id `k` and insertion time `t`.
pub open spec fn keyed_at(s: Seq<Message>, k: MsgId, t: Time) -> bool {
    exists|i: int| 0 <= i < s.len() && #[trigger] s[i].msg_id == k && s[i].insertion_time == t
}

/// What holds of every container: keys sorted by insertion time, and data only
/// under ids that some key has, with that key's insertion time.
pub open spec fn weak_wf(s: Seq<Message>, d: Map<MsgId, MsgData>) -> bool {
    &&& sorted_by_time(s)
    &&& forall|k: MsgId| #[trigger] d.contains_key(k) ==> keyed_at(s, k, d[k].time.insertion)
}

/// The data of `d` with the reply id of each message in `ids` that `d` holds
/// set to dangling.
pub open spec fn dangled(d: Map<MsgId, MsgData>, ids: Seq<MsgId>) -> Map<MsgId, MsgData> {
    Map::new(
        |k: MsgId| d.contains_key(k),
        |k: MsgId|
            if ids.contains(k) {
                MsgData { op: ReplyId::Dangling, ..d[k] }
            } else {
                d[k]
            },
    )
}

/// The ids of `ids` that `d` holds with a reply id other than dangling, each
/// once, in the order in which they first come: the messages that marking
/// `ids` as dangling changes.
pub open spec fn newly_dangling(d: Map<MsgId, MsgData>, ids: Seq<MsgId>) -> Seq<MsgId>
    decreases ids.len(),
{
    if ids.len() == 0 {
        Seq::empty()
    } else {
        let rest = ids.drop_last();
        let before = newly_dangling(d, rest);
        let id = ids.last();
        if d.contains_key(id) && d[id].op != ReplyId::Dangling && !rest.contains(id) {
            before.push(id)
        } else {
            before
        }
    }
}

/// `calls` redraws the row of each message in `changed`, in order: the row
/// that `keys` holds the message's insertion time at (the last such row).
pub open spec fn rows_redrawn(keys: Seq<Message>, d: Map<MsgId, MsgData>, changed: Seq<MsgId>, calls: Seq<ModelCall>) -> bool {
    &&& calls.len() == changed.len()
    &&& forall|j: int|
        0 <= j < calls.len() ==> {
            let r = row_of(keys, d[changed[j]].time.insertion);
            &&& found_at(keys, r, d[changed[j]].time.insertion)
            &&& #[trigger] calls[j] == (ModelCall::DataChanged { first: r, last: r })
        }
}

/// The row of `keys` that holds insertion time `t`, the last such row (any
/// index when none does).
pub open spec fn row_of(keys: Seq<Message>, t: Time) -> usize {
    choose|r: usize| found_at(keys, r, t)
}

/// Only one row is the last with a given insertion time.
pub proof fn lemma_row_of(keys: Seq<Message>, r: usize, t: Time)
    requires
        found_at(keys, r, t),
    ensures
        row_of(keys, t) == r,
{
    let c = row_of(keys, t);
    assert(found_at(keys, c, t));
    if c < r {
        assert(keys[r as int].insertion_time > t);
    } else if r < c {
        assert(keys[c as int].insertion_time > t);
    }
}

/// Marking a prefix of `ids` as dangling keeps the ids held, and changes each
/// held message at most in its reply id, which becomes dangling.
pub proof fn lemma_dangled_steps(d: Map<MsgId, MsgData>, ids: Seq<MsgId>, i: int)
    requires
        -1 <= i < ids.len(),
    ensures
        dangled(d, ids.take(i + 1)).dom() == d.dom(),
        forall|k: MsgId|
            #[trigger] dangled(d, ids.take(i + 1)).contains_key(k) ==> dangled(d, ids.take(i + 1))[k] == d[k]
                || dangled(d, ids.take(i + 1))[k] == (MsgData { op: ReplyId::Dangling, ..d[k] }),
{
    assert(dangled(d, ids.take(i + 1)).dom() =~= d.dom());
}

/// Which messages marking `ids` dangling changes depends only on which ids
/// are held and their reply ids.
pub proof fn lemma_newly_dangling_same(d: Map<MsgId, MsgData>, e: Map<MsgId, MsgData>, ids: Seq<MsgId>)
    requires
        forall|k: MsgId| #[trigger] d.contains_key(k) == e.contains_key(k),
        forall|k: MsgId| #[trigger] d.contains_key(k) ==> d[k].op == e[k].op,
    ensures
        newly_dangling(d, ids) == newly_dangling(e, ids),
    decreases ids.len(),
{
    if ids.len() > 0 {
        lemma_newly_dangling_same(d, e, ids.drop_last());
        let id = ids.last();
        if d.contains_key(id) {
            assert(d[id].op == e[id].op);
        }
    }
}

/// The messages that marking `ids` dangling changes are held.
pub proof fn lemma_newly_dangling_held(d: Map<MsgId, MsgData>, ids: Seq<MsgId>)
    ensures
        forall|j: int| 0 <= j < newly_dangling(d, ids).len() ==> d.contains_key(#[trigger] newly_dangling(d, ids)[j]),
    decreases ids.len(),
{
    if ids.len() > 0 {
        lemma_newly_dangling_held(d, ids.drop_last());
        let before = newly_dangling(d, ids.drop_last());
        assert forall|j: int| 0 <= j < newly_dangling(d, ids).len() implies d.contains_key(
            #[trigger] newly_dangling(d, ids)[j],
        ) by {
            if j < before.len() {
                assert(newly_dangling(d, ids)[j] == before[j]);
            }
        }
    }
}

/// Redrawn rows found by insertion time stay the same under data whose times
/// agree on the changed messages.
pub proof fn lemma_rows_redrawn_same(
    keys: Seq<Message>,
    d: Map<MsgId, MsgData>,
    e: Map<MsgId, MsgData>,
    changed: Seq<MsgId>,
    calls: Seq<ModelCall>,
)
    requires
        rows_redrawn(keys, d, changed, calls),
        forall|j: int| 0 <= j < changed.len() ==> #[trigger] d[changed[j]].time == e[changed[j]].time,
    ensures
        rows_redrawn(keys, e, changed, calls),
{
    assert forall|j: int| 0 <= j < calls.len() implies {
        let r = row_of(keys, e[changed[j]].time.insertion);
        &&& found_at(keys, r, e[changed[j]].time.insertion)
        &&& #[trigger] calls[j] == (ModelCall::DataChanged { first: r, last: r })
    } by {
        assert(d[changed[j]].time == e[changed[j]].time);
    }
}

/// `ix` is the last row of `keys` whose key has id `id`.
pub open spec fn last_row_of(keys: Seq<Message>, id: MsgId, ix: usize) -> bool {
    &&& ix < keys.len()
    &&& keys[ix as int].msg_id == id
    &&& forall|j: int| ix < j < keys.len() ==> #[trigger] keys[j].msg_id != id
}

/// No two messages of `msgs` share an id.
pub open spec fn distinct_ids(msgs: Seq<Msg>) -> bool {
    forall|i: int, j: int| 0 <= i < j < msgs.len() ==> msgs[i].message_id != msgs[j].message_id
}

/// `t` can stand at index `ix` of `s` without breaking the order by time.
pub open spec fn fits_at(s: Seq<Message>, ix: int, t: Time) -> bool {
    &&& 0 <= ix <= s.len()
    &&& ix > 0 ==> s[ix - 1].insertion_time <= t
    &&& ix < s.len() ==> t <= s[ix].insertion_time
}

/// `ids` with `id` added, unless it is there already.
pub open spec fn add_id(ids: Seq<MsgId>, id: MsgId) -> Seq<MsgId> {
    if ids.contains(id) {
        ids
    } else {
        ids.push(id)
    }
}

/// `after` is `before` with `id` added to the replies.
pub open spec fn reply_added(before: MsgData, after: MsgData, id: MsgId) -> bool {
    &&& after.replies@ == add_id(before.replies@, id)
    &&& after.author == before.author
    &&& after.body == before.body
    &&& after.time == before.time
    &&& after.op == before.op
    &&& after.receipts == before.receipts
    &&& after.has_attachments == before.has_attachments
    &&& after.save_status == before.save_status
    &&& after.send_status == before.send_status
    &&& after.match_status == before.match_status
}

/// When `op` names another message, `after` holds it with `id` added to its replies.
pub open spec fn op_records_reply(
    before: Map<MsgId, MsgData>,
    after: Map<MsgId, MsgData>,
    op: ReplyId,
    id: MsgId,
) -> bool {
    match op {
        ReplyId::Known(o) => o != id ==> reply_added(before[o], after[o], id),
        _ => true,
    }
}

/// The message that `op` names is missing from `d`.
pub open spec fn op_missing(d: Map<MsgId, MsgData>, op: ReplyId) -> bool {
    op matches ReplyId::Known(o) && !d.contains_key(o)
}

/// Changing the data under ids a container holds, keeping each one's times,
/// keeps it well formed, and clean when it was.
pub proof fn lemma_same_ids_keep_wf(s: Seq<Message>, d0: Map<MsgId, MsgData>, d1: Map<MsgId, MsgData>)
    requires
        weak_wf(s, d0),
        d1.dom() == d0.dom(),
        forall|k: MsgId| #[trigger] d0.contains_key(k) ==> d1[k].time == d0[k].time,
    ensures
        weak_wf(s, d1),
        container_wf(s, d0) ==> container_wf(s, d1),
{
    assert forall|k: MsgId| #[trigger] d1.contains_key(k) implies keyed_at(s, k, d1[k].time.insertion) by {
        assert(d0.contains_key(k));
    }
    if container_wf(s, d0) {
        assert forall|j: int| 0 <= j < s.len() implies #[trigger] d1.contains_key(s[j].msg_id)
            && d1[s[j].msg_id].time.insertion == s[j].insertion_time by {
            assert(d0.contains_key(s[j].msg_id));
        }
    }
}

/// Inserting a key at a place that keeps the time order, with data under its
/// id, keeps a container well formed.
pub proof fn lemma_insert_keeps_weak_wf(
    s: Seq<Message>,
    d0: Map<MsgId, MsgData>,
    d1: Map<MsgId, MsgData>,
    ix: int,
    msg: Message,
)
    requires
        weak_wf(s, d0),
        fits_at(s, ix, msg.insertion_time),
        forall|k: MsgId| #[trigger] d1.contains_key(k) <==> (d0.contains_key(k) || k == msg.msg_id),
        d1[msg.msg_id].time.insertion == msg.insertion_time,
        forall|k: MsgId| #[trigger] d0.contains_key(k) && k != msg.msg_id ==> d1[k].time == d0[k].time,
    ensures
        weak_wf(s.insert(ix, msg), d1),
{
    let s2 = s.insert(ix, msg);
    assert forall|i: int, j: int| 0 <= i <= j < s2.len() implies s2[i].insertion_time
        <= s2[j].insertion_time by {
        if i < ix {
            assert(s2[i] == s[i]);
        } else if i > ix {
            assert(s2[i] == s[i - 1]);
        }
        if j < ix {
            assert(s2[j] == s[j]);
        } else if j > ix {
            assert(s2[j] == s[j - 1]);
        }
        if i < ix && j > ix {
            assert(s[i].insertion_time <= s[ix - 1].insertion_time);
        }
        if i == ix && j > ix {
            assert(s[ix].insertion_time <= s[j - 1].insertion_time);
        }
    }
    assert forall|k: MsgId| #[trigger] d1.contains_key(k) implies keyed_at(s2, k, d1[k].time.insertion) by {
        if k == msg.msg_id {
            assert(s2[ix].msg_id == msg.msg_id);
        } else {
            assert(d0.contains_key(k));
            let j = choose|j: int| 0 <= j < s.len() && #[trigger] s[j].msg_id == k && s[j].insertion_time
                == d0[k].time.insertion;
            if j < ix {
                assert(s2[j] == s[j]);
            } else {
                assert(s2[j + 1] == s[j]);
            }
        }
    }
}

/// Inserting a key with a fresh id at a place that keeps the time order, with
/// its data, keeps the container clean.
#[verifier::spinoff_prover]
pub proof fn lemma_insert_keeps_wf(
    s: Seq<Message>,
    d0: Map<MsgId, MsgData>,
    d1: Map<MsgId, MsgData>,
    ix: int,
    msg: Message,
)
    requires
        container_wf(s, d0),
        !d0.contains_key(msg.msg_id),
        fits_at(s, ix, msg.insertion_time),
        forall|k: MsgId| #[trigger] d1.contains_key(k) <==> (d0.contains_key(k) || k == msg.msg_id),
        forall|k: MsgId| #[trigger] d0.contains_key(k) && k != msg.msg_id ==> d1[k].time == d0[k].time,
        d1[msg.msg_id].time.insertion == msg.insertion_time,
    ensures
        container_wf(s.insert(ix, msg), d1),
{
    let s2 = s.insert(ix, msg);
    let mid = msg.msg_id;
    assert forall|i: int, j: int| 0 <= i <= j < s2.len() implies s2[i].insertion_time
        <= s2[j].insertion_time by {
        if i < ix {
            assert(s2[i] == s[i]);
        } else if i > ix {
            assert(s2[i] == s[i - 1]);
        }
        if j < ix {
            assert(s2[j] == s[j]);
        } else if j > ix {
            assert(s2[j] == s[j - 1]);
        }
        if i < ix && j > ix {
            assert(s[i].insertion_time <= s[ix - 1].insertion_time);
        }
        if i == ix && j > ix {
            assert(s[ix].insertion_time <= s[j - 1].insertion_time);
        }
    }
    assert forall|i: int, j: int| 0 <= i < j < s2.len() implies s2[i].msg_id
        != s2[j].msg_id by {
        if i == ix {
            let b = j - 1;
            assert(s2[j] == s[b]);
            assert(d0.contains_key(s[b].msg_id));
        } else if j == ix {
            assert(s2[i] == s[i]);
            assert(d0.contains_key(s[i].msg_id));
        } else {
            let a = if i < ix { i } else { i - 1 };
            let b = if j < ix { j } else { j - 1 };
            assert(s2[i] == s[a]);
            assert(s2[j] == s[b]);
        }
    }
    assert forall|i: int| 0 <= i < s2.len() implies #[trigger] d1.contains_key(
        s2[i].msg_id,
    ) && d1[s2[i].msg_id].time.insertion == s2[i].insertion_time by {
        if i != ix {
            let a = if i < ix { i } else { i - 1 };
            assert(s2[i] == s[a]);
            assert(d0.contains_key(s[a].msg_id));
        }
    }
    assert forall|k: MsgId| #[trigger] d1.contains_key(k) implies has_id(s2, k) by {
        if k == mid {
            assert(s2[ix].msg_id == mid);
        } else {
            assert(d0.contains_key(k));
            let j = choose|j: int| 0 <= j < s.len() && #[trigger] s[j].msg_id == k;
            if j < ix {
                assert(s2[j] == s[j]);
            } else {
                assert(s2[j + 1] == s[j]);
            }
        }
    }
    assert(container_wf(s2, d1));
}

/// What inserting the key `msg` at `ix` with `data` did to the container
/// `before`, giving `after`: the key is in place, the data is stored under its
/// id, the other ids keep their data, and the message it replies to records it.
pub open spec fn inserted(before: Container, after: Container, ix: int, msg: Message, data: MsgData) -> bool {
    &&& after.keys() == before.keys().insert(ix, msg)
    &&& after.data().contains_key(msg.msg_id)
    &&& after.data()[msg.msg_id] == data
    &&& forall|k: MsgId| k != msg.msg_id ==> (#[trigger] after.data().contains_key(k) == before.data().contains_key(k))
    &&& forall|k: MsgId|
        k != msg.msg_id && data.op != ReplyId::Known(k) && #[trigger] before.data().contains_key(k) ==> after.data()[k]
            == before.data()[k]
    &&& op_records_reply(before.data(), after.data(), data.op, msg.msg_id)
}

/// What removing the message at `ix` from `before` did, giving `after` and
/// handing back `d`: its data, with its key and data gone.
pub open spec fn removed(before: Container, after: Container, ix: int, d: MsgData) -> bool {
    &&& d == before.data_at(ix)
    &&& after.keys() == before.keys().remove(ix)
    &&& after.data() == before.data().remove(before.keys()[ix].msg_id)
}

/// Removing a message right after inserting it at the same index gives back
/// the container as it was, and the data that went in, when the message is
/// new and replies to no message.
pub proof fn insert_then_remove_restores(
    c0: Container,
    c1: Container,
    c2: Container,
    ix: int,
    msg: Message,
    data: MsgData,
    d: MsgData,
)
    requires
        c0.wf(),
        !c0.data().contains_key(msg.msg_id),
        !(data.op is Known),
        0 <= ix <= c0.keys().len(),
        inserted(c0, c1, ix, msg, data),
        removed(c1, c2, ix, d),
    ensures
        c2.keys() == c0.keys(),
        c2.data() == c0.data(),
        d == data,
{
    assert(c1.keys()[ix] == msg);
    assert(c2.keys() =~= c0.keys());
    assert(c2.data() =~= c0.data());
}

/// In a clean container whose messages have distinct insertion times, the row that
/// `index_by_id` finds for an id it holds is that message's own row.
pub proof fn index_by_id_finds_the_message(c: Container, id: MsgId, i: usize)
    requires
        c.clean(),
        forall|a: int, b: int| 0 <= a < b < c.keys().len() ==> c.keys()[a].insertion_time != c.keys()[b].insertion_time,
        c.data().contains_key(id),
        found_at(c.keys(), i, c.data()[id].time.insertion),
    ensures
        c.keys()[i as int].msg_id == id,
{
    let s = c.keys();
    let k = choose|k: int| 0 <= k < s.len() && #[trigger] s[k].msg_id == id;
    assert(c.data().contains_key(s[k].msg_id));
    assert(s[k].insertion_time == s[i as int].insertion_time);
    if k < i {
        assert(s[k].insertion_time != s[i as int].insertion_time);
    } else if k > i {
        assert(s[i as int].insertion_time != s[k].insertion_time);
    }
}

/// A container of messages, ordered by insertion time, with their data by id.
pub struct Container {
    list: im::Vector<Message>,
    map: DataMap,
}

impl Container {
    /// The message keys, in order.
    pub closed spec fn keys(&self) -> Seq<Message> {
        key_seq(self.list)
    }

    /// The message data, by id.
    pub closed spec fn data(&self) -> Map<MsgId, MsgData> {
        self.map@
    }

    /// The container's invariant: keys in order of insertion time, and data
    /// only for messages that have a key.
    pub closed spec fn wf(&self) -> bool {
        weak_wf(self.keys(), self.data())
    }

    /// Every message the container holds data for has a key with its id and
    /// insertion time.
    pub proof fn lemma_held_is_keyed(&self, k: MsgId)
        requires
            self.wf(),
            self.data().contains_key(k),
        ensures
            keyed_at(self.keys(), k, self.data()[k].time.insertion),
    {
    }

    /// The container holds each message once, with its data under its id
    /// carrying the key's insertion time.
    pub open spec fn clean(&self) -> bool {
        container_wf(self.keys(), self.data())
    }

    /// The data of the message at `index` of the keys.
    pub open spec fn data_at(&self, index: int) -> MsgData {
        self.data()[self.keys()[index].msg_id]
    }

    /// The data of the message at `index`: `None` past the end, or when the
    /// container holds no data under that key's id.
    pub open spec fn row(&self, index: int) -> Option<MsgData> {
        if 0 <= index < self.keys().len() && self.data().contains_key(self.keys()[index].msg_id) {
            Some(self.data_at(index))
        } else {
            None
        }
    }

    /// The data of the message that the message at `index` replies to, when
    /// there is a message at `index`, it replies to a known message, and the
    /// container holds that message.
    pub open spec fn op_data(&self, index: int) -> Option<MsgData> {
        match self.row(index) {
            Some(md) => match md.op {
                ReplyId::Known(o) => if self.data().contains_key(o) {
                    Some(self.data()[o])
                } else {
                    None
                },
                _ => None,
            },
            None => None,
        }
    }

    /// An empty container.
    pub fn new() -> (c: Container)
        ensures
            c.wf(),
            c.keys() == Seq::<Message>::empty(),
            c.data() == Map::<MsgId, MsgData>::empty(),
    {
        Container { list: keys_new(), map: data_new() }
    }

    /// Whether the container holds no message.
    pub fn is_empty(&self) -> (empty: bool)
        ensures
            empty == (self.keys().len() == 0),
    {
        keys_len(&self.list) == 0
    }

    /// The number of messages.
    pub fn len(&self) -> (n: usize)
        ensures
            n == self.keys().len(),
    {
        keys_len(&self.list)
    }

    /// Whether the message with id `msg_id` is in the container.
    pub fn contains(&self, msg_id: &MsgId) -> (found: bool)
        requires
            self.wf(),
        ensures
            found == self.data().contains_key(*msg_id),
            found ==> keyed_at(self.keys(), *msg_id, self.data()[*msg_id].time.insertion),
            found ==> has_id(self.keys(), *msg_id),
            self.clean() ==> found == has_id(self.keys(), *msg_id),
    {
        proof {
            if self.clean() && has_id(self.keys(), *msg_id) {
                let j = choose|j: int| 0 <= j < self.keys().len() && #[trigger] self.keys()[j].msg_id == *msg_id;
                assert(self.data().contains_key(self.keys()[j].msg_id));
            }
        }
        data_get(&self.map, msg_id).is_some()
    }

    /// The key at `ix`, `None` past the end.
    pub fn get(&self, ix: usize) -> (m: Option<&Message>)
        ensures
            ix < self.keys().len() ==> m == Some(&self.keys()[ix as int]),
            ix >= self.keys().len() ==> m is None,
    {
        keys_get(&self.list, ix)
    }

    /// The data of the message with id `msg_id`, if it is there.
    pub fn get_data(&self, msg_id: &MsgId) -> (d: Option<&MsgData>)
        ensures
            self.data().contains_key(*msg_id) ==> d == Some(&self.data()[*msg_id]),
            !self.data().contains_key(*msg_id) ==> d is None,
    {
        data_get(&self.map, msg_id)
    }

    /// The data of the last message, `None` when there is none.
    pub fn last_msg(&self) -> (d: Option<&MsgData>)
        requires
            self.wf(),
        ensures
            match self.row(self.keys().len() - 1) {
                Some(x) => d == Some(&x),
                None => d is None,
            },
            self.clean() && self.keys().len() > 0 ==> d == Some(&self.data_at(self.keys().len() - 1)),
    {
        let last = keys_last(&self.list);
        match last {
            None => None,
            Some(m) => {
                proof {
                    if self.clean() {
                        assert(self.data().contains_key(self.keys()[self.keys().len() - 1].msg_id));
                    }
                }
                data_get(&self.map, &m.msg_id)
            },
        }
    }

    /// The data of the message at `index`, `None` past the end.
    pub fn msg_data(&self, index: usize) -> (d: Option<&MsgData>)
        requires
            self.wf(),
        ensures
            match self.row(index as int) {
                Some(x) => d == Some(&x),
                None => d is None,
            },
            index >= self.keys().len() ==> d is None,
            self.clean() && index < self.keys().len() ==> d == Some(&self.data_at(index as int)),
    {
        match keys_get(&self.list, index) {
            None => None,
            Some(m) => {
                proof {
                    if self.clean() {
                        assert(self.data().contains_key(self.keys()[index as int].msg_id));
                    }
                }
                data_get(&self.map, &m.msg_id)
            },
        }
    }

    /// The last key, `None` when there is none.
    pub fn last(&self) -> (m: Option<&Message>)
        ensures
            self.keys().len() > 0 ==> m == Some(&self.keys().last()),
            self.keys().len() == 0 ==> m is None,
    {
        keys_last(&self.list)
    }

    /// Searches the keys for the insertion time of `msg`: `Ok` of the last index
    /// with that time, or `Err` of the index where `msg` belongs.
    pub fn binary_search(&self, msg: &Message) -> (r: Result<usize, usize>)
        requires
            self.wf(),
        ensures
            r matches Ok(i) ==> found_at(self.keys(), i, msg.insertion_time),
            r matches Err(i) ==> belongs_at(self.keys(), i, msg.insertion_time),
    {
        keys_search_time(&self.list, msg.insertion_time)
    }

    /// The index of a key with the insertion time of `msg`, if there is one.
    pub fn index_of(&self, msg: &Message) -> (ix: Option<usize>)
        requires
            self.wf(),
        ensures
            ix matches Some(i) ==> found_at(self.keys(), i, msg.insertion_time),
            ix is None ==> forall|j: int|
                0 <= j < self.keys().len() ==> self.keys()[j].insertion_time != msg.insertion_time,
    {
        match self.binary_search(msg) {
            Ok(i) => Some(i),
            Err(_) => None,
        }
    }

    /// The index of the message with id `msg_id`: the key with that message's
    /// insertion time (the last such key, when several share the time); `None`
    /// when no data is held under the id or no key has its time.
    pub fn index_by_id(&self, msg_id: MsgId) -> (ix: Option<usize>)
        requires
            self.wf(),
        ensures
            ix is Some ==> self.data().contains_key(msg_id),
            ix matches Some(i) ==> found_at(
                self.keys(),
                i,
                self.data()[msg_id].time.insertion,
            ),
            ix is Some <==> self.data().contains_key(msg_id),
    {
        let data = data_get(&self.map, &msg_id);
        match data {
            None => None,
            Some(d) => {
                let m = Message { msg_id, insertion_time: d.time.insertion };
                let r = self.binary_search(&m);
                proof {
                    let k = choose|k: int|
                        0 <= k < self.keys().len() && #[trigger] self.keys()[k].msg_id == msg_id
                            && self.keys()[k].insertion_time == self.data()[msg_id].time.insertion;
                    if r is Err {
                        assert(self.keys()[k].insertion_time == m.insertion_time);
                    }
                }
                match r {
                    Ok(i) => Some(i),
                    Err(_) => None,
                }
            },
        }
    }

    /// Removes the key at `ix` from the container (not from storage) and the data
    /// under its id, handing that data back; `None` past the end, or when no
    /// data was held under that id.
    pub fn remove(&mut self, ix: usize) -> (d: Option<MsgData>)
        requires
            old(self).wf(),
        ensures
            final(self).wf(),
            old(self).clean() ==> final(self).clean(),
            ix >= old(self).keys().len() ==> d is None && *final(self) == *old(self),
            ix < old(self).keys().len() ==> final(self).keys() == old(self).keys().remove(ix as int)
                && final(self).data() == old(self).data().remove(old(self).keys()[ix as int].msg_id) && d == old(
                self,
            ).row(ix as int),
            ix < old(self).keys().len() && old(self).clean() ==> d is Some && removed(
                *old(self),
                *final(self),
                ix as int,
                d.unwrap(),
            ),
    {
        if ix >= self.len() {
            return None;
        }
        let ghost s = self.keys();
        let ghost dd = self.data();
        let ghost was_clean = self.clean();
        let msg = keys_remove(&mut self.list, ix);
        let data = data_remove(&mut self.map, &msg.msg_id);
        proof {
            let s2 = self.keys();
            let d2 = self.data();
            assert(d2 =~= dd.remove(s[ix as int].msg_id));
            assert forall|k: MsgId| #[trigger] d2.contains_key(k) implies keyed_at(s2, k, d2[k].time.insertion) by {
                assert(dd.contains_key(k));
                let j = choose|j: int| 0 <= j < s.len() && #[trigger] s[j].msg_id == k && s[j].insertion_time
                    == dd[k].time.insertion;
                assert(j != ix);
                if j < ix {
                    assert(s2[j] == s[j]);
                } else {
                    assert(s2[j - 1] == s[j]);
                }
            }
            assert forall|i: int, j: int| 0 <= i <= j < s2.len() implies s2[i].insertion_time
                <= s2[j].insertion_time by {
                let a = if i < ix { i } else { i + 1 };
                let b = if j < ix { j } else { j + 1 };
                assert(s2[i] == s[a]);
                assert(s2[j] == s[b]);
            }
            if was_clean {
                assert(dd.contains_key(s[ix as int].msg_id));
                assert forall|i: int| 0 <= i < s2.len() implies #[trigger] d2.contains_key(s2[i].msg_id)
                    && d2[s2[i].msg_id].time.insertion == s2[i].insertion_time by {
                    let j = if i < ix { i } else { i + 1 };
                    assert(s2[i] == s[j]);
                    assert(dd.contains_key(s[j].msg_id));
                    assert(s[j].msg_id != s[ix as int].msg_id);
                }
                assert forall|i: int, j: int| 0 <= i < j < s2.len() implies s2[i].msg_id
                    != s2[j].msg_id by {
                    let a = if i < ix { i } else { i + 1 };
                    let b = if j < ix { j } else { j + 1 };
                    assert(s2[i] == s[a]);
                    assert(s2[j] == s[b]);
                }
            }
        }
        data
    }

    /// Inserts the key `msg` at `ix` and its data. A reply first records itself
    /// among the replies of the message it answers; when that message is not in
    /// the container nothing is inserted and the result is `None`. Data already
    /// held under the id is replaced, and its key stays. The container stays
    /// well formed when the key fits at `ix` in time order, and clean when it
    /// was, the id is new and the data has the key's time.
    pub fn insert(&mut self, ix: usize, msg: Message, data: MsgData) -> (r: Option<()>)
        requires
            old(self).wf(),
            ix <= old(self).keys().len(),
        ensures
            op_missing(old(self).data(), data.op) ==> r is None && final(self).keys() == old(self).keys() && final(self).data() == old(self).data(),
            !op_missing(old(self).data(), data.op) ==> r is Some && inserted(*old(self), *final(self), ix as int, msg, data),
            r is Some && fits_at(old(self).keys(), ix as int, msg.insertion_time) && msg.insertion_time
                == data.time.insertion ==> final(self).wf(),
            r is Some && old(self).clean() && !old(self).data().contains_key(msg.msg_id) && msg.insertion_time
                == data.time.insertion && fits_at(old(self).keys(), ix as int, msg.insertion_time)
                ==> final(self).clean(),
            r is None ==> final(self).wf(),
    {
        let ghost s = self.keys();
        let ghost d0 = self.data();
        let mid = msg.msg_id;
        match &data.op {
            ReplyId::Known(op) => {
                let removed = data_remove(&mut self.map, op);
                match removed {
                    None => {
                        proof {
                            assert(self.map@ =~= d0);
                        }
                        return None;
                    },
                    Some(mut od) => {
                        if !contains_id(&od.replies, &mid) {
                            od.replies.push(mid);
                        }
                        let ghost odv = od;
                        data_insert(&mut self.map, *op, od);
                        proof {
                            assert(odv.time == d0[*op].time);
                            assert(self.data() =~= d0.insert(*op, odv));
                        }
                    },
                }
            },
            _ => {},
        }
        let ghost d_mid = self.data();
        keys_insert(&mut self.list, ix, msg);
        data_insert(&mut self.map, mid, data);
        proof {
            let d1 = self.data();
            let s2 = self.keys();
            assert forall|k: MsgId| #[trigger] d1.contains_key(k) <==> (d0.contains_key(k) || k == mid) by {
            }
            assert forall|k: MsgId| #[trigger] d0.contains_key(k) && k != mid implies d1[k].time
                == d0[k].time by {
            }
            if fits_at(s, ix as int, msg.insertion_time) && msg.insertion_time == data.time.insertion {
                lemma_insert_keeps_weak_wf(s, d0, d1, ix as int, msg);
            }
            if container_wf(s, d0) && !d0.contains_key(mid) && msg.insertion_time == data.time.insertion && fits_at(
                s,
                ix as int,
                msg.insertion_time,
            ) {
                lemma_insert_keeps_wf(s, d0, d1, ix as int, msg);
            }
        }
        Some(())
    }

    /// Marks as dangling the reply id of each message in `ids` that the container
    /// holds and that is not dangling already, telling the view about each one.
    pub fn set_dangling(&mut self, ids: Vec<MsgId>, model: &mut MessagesList) -> (r: Option<()>)
        requires
            old(self).wf(),
        ensures
            final(self).wf(),
            old(self).clean() ==> final(self).clean(),
            final(self).keys() == old(self).keys(),
            final(model).target() == old(model).target(),
            final(self).data().dom() == old(self).data().dom(),
            forall|k: MsgId|
                #[trigger] final(self).data().contains_key(k) ==> final(self).data()[k] == old(self).data()[k]
                    || final(self).data()[k] == (MsgData { op: ReplyId::Dangling, ..old(self).data()[k] }),
            r is Some,
            final(self).data() == dangled(old(self).data(), ids@),
            exists|calls: Seq<ModelCall>|
                rows_redrawn(old(self).keys(), old(self).data(), newly_dangling(old(self).data(), ids@), calls)
                    && #[trigger] after_calls(old(model)@, old(model).target(), calls) == final(model)@,
    {
        let ghost d0 = self.data();
        let ghost keys = self.keys();
        let ghost mut made: Seq<ModelCall> = Seq::empty();
        let mut i: usize = 0;
        proof {
            lemma_calls_none(model@, model.target());
            assert(ids@.take(0) =~= Seq::<MsgId>::empty());
        }
        while i < ids.len()
            invariant
                self.wf(),
                old(self).clean() ==> self.clean(),
                self.keys() == old(self).keys(),
                keys == old(self).keys(),
                i <= ids@.len(),
                d0 == old(self).data(),
                self.data() == dangled(d0, ids@.take(i as int)),
                model.target() == old(model).target(),
                rows_redrawn(keys, d0, newly_dangling(d0, ids@.take(i as int)), made),
                model@ == after_calls(old(model)@, old(model).target(), made),
            decreases ids@.len() - i,
        {
            let id = ids[i];
            let ghost before = self.data();
            let ghost s = self.keys();
            let present = data_get(&self.map, &id);
            let needs = match present {
                Some(d) => match d.op {
                    ReplyId::Dangling => false,
                    _ => true,
                },
                None => false,
            };
            if needs {
                let mut d = data_remove(&mut self.map, &id).unwrap();
                d.op = ReplyId::Dangling;
                data_insert(&mut self.map, id, d);
                proof {
                    assert(self.data() =~= before.insert(id, d));
                    lemma_same_ids_keep_wf(s, before, self.data());
                }
                let ix = self.index_by_id(id);
                match ix {
                    Some(ix) => {
                        proof {
                            lemma_calls_push(old(model)@, old(model).target(), made, ModelCall::DataChanged { first: ix, last: ix });
                        }
                        model.data_changed(ix, ix);
                        proof {
                            let prev = made;
                            made = made.push(ModelCall::DataChanged { first: ix, last: ix });
                            assert(d0.contains_key(id));
                            assert(self.data()[id].time == d0[id].time);
                            let ch = newly_dangling(d0, ids@.take(i as int)).push(id);
                            assert(found_at(keys, ix, d0[id].time.insertion));
                            lemma_row_of(keys, ix, d0[id].time.insertion);
                            assert forall|j: int| 0 <= j < made.len() implies {
                                let r = row_of(keys, d0[ch[j]].time.insertion);
                                &&& found_at(keys, r, d0[ch[j]].time.insertion)
                                &&& #[trigger] made[j] == (ModelCall::DataChanged { first: r, last: r })
                            } by {
                                if j < prev.len() {
                                    assert(made[j] == prev[j]);
                                    assert(ch[j] == newly_dangling(d0, ids@.take(i as int))[j]);
                                }
                            }
                            assert(rows_redrawn(keys, d0, ch, made));
                        }
                    },
                    None => {
                        proof {
                            assert(false);
                        }
                    },
                }
            }
            proof {
                let t1 = ids@.take(i + 1);
                let t0 = ids@.take(i as int);
                assert(t1 =~= t0.push(id));
                assert forall|k: MsgId| t1.contains(k) <==> (t0.contains(k) || k == id) by {
                    if t1.contains(k) {
                        let j = choose|j: int| 0 <= j < t1.len() && t1[j] == k;
                        if j < t0.len() {
                            assert(t0[j] == k);
                        }
                    }
                    if t0.contains(k) {
                        let j = choose|j: int| 0 <= j < t0.len() && t0[j] == k;
                        assert(t1[j] == k);
                    }
                    if k == id {
                        assert(t1[i as int] == id);
                    }
                }
                assert(self.data() =~= dangled(d0, t1));
                assert(t1.drop_last() =~= t0);
                assert(t1.last() == id);
                assert(before == dangled(d0, t0));
                assert(needs == (d0.contains_key(id) && d0[id].op != ReplyId::Dangling && !t0.contains(id)));
                assert(newly_dangling(d0, t1) == if needs {
                    newly_dangling(d0, t0).push(id)
                } else {
                    newly_dangling(d0, t0)
                });
                assert(rows_redrawn(keys, d0, newly_dangling(d0, t1), made));
            }
            i = i + 1;
        }
        proof {
            assert(ids@.take(ids@.len() as int) =~= ids@);
            lemma_dangled_steps(d0, ids@, ids@.len() as int - 1);
        }
        Some(())
    }

    /// The data of the message that the message at `index` replies to, when that
    /// message is known and in the container.
    pub fn op(&self, index: usize) -> (d: Option<&MsgData>)
        requires
            self.wf(),
        ensures
            match self.op_data(index as int) {
                Some(od) => d == Some(&od),
                None => d is None,
            },
    {
        match self.msg_data(index) {
            None => None,
            Some(md) => match &md.op {
                ReplyId::Known(mid) => self.get_data(mid),
                _ => None,
            },
        }
    }

    /// The kind of reply of the message at `index`.
    pub fn op_reply_type(&self, index: usize) -> (t: Option<ReplyType>)
        requires
            self.wf(),
        ensures
            t == match self.row(index as int) {
                Some(md) => Some(spec_reply_type(md.op)),
                None => None::<ReplyType>,
            },
    {
        match self.msg_data(index) {
            None => None,
            Some(md) => Some(reply_type(&md.op)),
        }
    }

    /// The id of the message that the message at `index` replies to, if known.
    pub fn op_msg_id(&self, index: usize) -> (id: Option<&MsgId>)
        requires
            self.wf(),
        ensures
            id matches Some(o) ==> self.row(index as int) matches Some(md) && md.op == ReplyId::Known(*o),
            id is None ==> !(self.row(index as int) matches Some(md) && md.op is Known),
    {
        match self.msg_data(index) {
            None => None,
            Some(md) => match &md.op {
                ReplyId::Known(mid) => Some(mid),
                _ => None,
            },
        }
    }

    /// The author of the message that the message at `index` replies to.
    pub fn op_author(&self, index: usize) -> (a: Option<&UserId>)
        requires
            self.wf(),
        ensures
            match self.op_data(index as int) {
                Some(od) => a == Some(&od.author),
                None => a is None,
            },
    {
        match self.op(index) {
            None => None,
            Some(od) => Some(&od.author),
        }
    }

    /// The body of the message that the message at `index` replies to.
    pub fn op_body(&self, index: usize) -> (b: Option<&Option<String>>)
        requires
            self.wf(),
        ensures
            match self.op_data(index as int) {
                Some(od) => b == Some(&od.body),
                None => b is None,
            },
    {
        match self.op(index) {
            None => None,
            Some(od) => Some(&od.body),
        }
    }

    /// The insertion time of the message that the message at `index` replies to.
    pub fn op_time(&self, index: usize) -> (t: Option<Time>)
        requires
            self.wf(),
        ensures
            t == match self.op_data(index as int) {
                Some(od) => Some(od.time.insertion),
                None => None::<Time>,
            },
    {
        match self.op(index) {
            None => None,
            Some(od) => Some(od.time.insertion),
        }
    }

    /// Whether the message that the message at `index` replies to has attachments.
    pub fn op_has_attachments(&self, index: usize) -> (h: Option<bool>)
        requires
            self.wf(),
        ensures
            h == match self.op_data(index as int) {
                Some(od) => Some(od.has_attachments),
                None => None::<bool>,
            },
    {
        match self.op(index) {
            None => None,
            Some(od) => Some(od.has_attachments),
        }
    }

    /// Sets the search status of the message with id `msg_id`; `None` when the
    /// container does not hold it.
    pub fn set_match_status(&mut self, msg_id: &MsgId, status: MatchStatus) -> (r: Option<()>)
        requires
            old(self).wf(),
        ensures
            final(self).wf(),
            old(self).clean() ==> final(self).clean(),
            final(self).keys() == old(self).keys(),
            r is Some <==> old(self).data().contains_key(*msg_id),
            old(self).data().contains_key(*msg_id) ==> final(self).data() == old(self).data().insert(
                *msg_id,
                MsgData { match_status: status, ..old(self).data()[*msg_id] },
            ),
            !old(self).data().contains_key(*msg_id) ==> final(self).data() == old(self).data(),
    {
        let ghost before = self.data();
        let ghost s = self.keys();
        match data_remove(&mut self.map, msg_id) {
            None => {
                proof {
                    assert(self.data() =~= before);
                }
                None
            },
            Some(mut d) => {
                d.match_status = status;
                data_insert(&mut self.map, *msg_id, d);
                proof {
                    assert(self.data() =~= before.insert(*msg_id, d));
                    lemma_same_ids_keep_wf(s, before, self.data());
                }
                Some(())
            },
        }
    }

    /// The last row whose key has id `id`, searching from the end.
    pub fn rposition(&self, id: &MsgId) -> (ix: Option<usize>)
        ensures
            ix matches Some(i) ==> i < self.keys().len() && self.keys()[i as int].msg_id == *id
                && forall|j: int| i < j < self.keys().len() ==> #[trigger] self.keys()[j].msg_id != *id,
            ix is None ==> !has_id(self.keys(), *id),
    {
        let mut i: usize = keys_len(&self.list);
        while i > 0
            invariant
                i <= self.keys().len(),
                forall|j: int| i <= j < self.keys().len() ==> #[trigger] self.keys()[j].msg_id != *id,
            decreases i,
        {
            i = i - 1;
            let m = keys_get(&self.list, i).unwrap();
            if ids_equal(&m.msg_id, id) {
                return Some(i);
            }
        }
        None
    }

    /// Takes in the receipts that storage now holds (`receipts`) for the message
    /// with id `mid`, and tells the view of its row. A message the container
    /// lacks (deleted meanwhile) is skipped.
    pub fn handle_receipt(&mut self, mid: MsgId, receipts: Vec<u32>, model: &mut MessagesList)
        requires
            old(self).wf(),
        ensures
            final(self).wf(),
            old(self).clean() ==> final(self).clean(),
            final(self).keys() == old(self).keys(),
            final(model).target() == old(model).target(),
            !old(self).data().contains_key(mid) ==> final(self).data() == old(self).data() && final(model)@
                == old(model)@,
            old(self).data().contains_key(mid) ==> {
                &&& final(self).data() == old(self).data().insert(
                    mid,
                    (MsgData { receipts, ..old(self).data()[mid] }),
                )
                &&& exists|ix: usize|
                    last_row_of(old(self).keys(), mid, ix) && #[trigger] after_call(
                        old(model)@,
                        old(model).target(),
                        ModelCall::DataChanged { first: ix, last: ix },
                    ) == final(model)@
            },
    {
        let ghost before = self.data();
        let ghost s = self.keys();
        let mut d = match data_remove(&mut self.map, &mid) {
            None => {
                proof {
                    assert(self.data() =~= before);
                }
                return;
            },
            Some(d) => d,
        };
        d.receipts = receipts;
        data_insert(&mut self.map, mid, d);
        proof {
            assert(self.data() =~= before.insert(mid, d));
            lemma_same_ids_keep_wf(s, before, self.data());
        }
        let ix = self.rposition(&mid).unwrap();
        model.data_changed(ix, ix);
    }

    /// Marks the message with id `mid` as saved and tells the view of its row;
    /// `None`, with nothing changed, when the container lacks it.
    pub fn handle_store_done(&mut self, mid: MsgId, model: &mut MessagesList) -> (r: Option<()>)
        requires
            old(self).wf(),
        ensures
            final(self).wf(),
            old(self).clean() ==> final(self).clean(),
            final(self).keys() == old(self).keys(),
            final(model).target() == old(model).target(),
            r is Some <==> old(self).data().contains_key(mid),
            r is None ==> final(self).data() == old(self).data() && final(model)@ == old(model)@,
            r is Some ==> {
                &&& final(self).data() == old(self).data().insert(
                    mid,
                    (MsgData { save_status: SaveStatus::Saved, ..old(self).data()[mid] }),
                )
                &&& exists|ix: usize|
                    last_row_of(old(self).keys(), mid, ix) && #[trigger] after_call(
                        old(model)@,
                        old(model).target(),
                        ModelCall::DataChanged { first: ix, last: ix },
                    ) == final(model)@
            },
    {
        let ghost before = self.data();
        let ghost s = self.keys();
        let mut d = match data_remove(&mut self.map, &mid) {
            None => {
                proof {
                    assert(self.data() =~= before);
                }
                return None;
            },
            Some(d) => d,
        };
        d.save_status = SaveStatus::Saved;
        data_insert(&mut self.map, mid, d);
        proof {
            assert(self.data() =~= before.insert(mid, d));
            lemma_same_ids_keep_wf(s, before, self.data());
        }
        let ix = self.rposition(&mid).unwrap();
        model.data_changed(ix, ix);
        Some(())
    }

    /// Removes the message at `ix` from the container (not from storage);
    /// `None` past the end.
    pub fn mem_remove(&mut self, ix: usize) -> (r: Option<()>)
        requires
            old(self).wf(),
        ensures
            final(self).wf(),
            old(self).clean() ==> final(self).clean(),
            r is Some <==> old(self).row(ix as int) is Some,
            ix >= old(self).keys().len() ==> *final(self) == *old(self),
            ix < old(self).keys().len() ==> final(self).keys() == old(self).keys().remove(ix as int)
                && final(self).data() == old(self).data().remove(old(self).keys()[ix as int].msg_id),
    {
        match self.remove(ix) {
            Some(_) => Some(()),
            None => None,
        }
    }

    /// A container of the messages that storage loaded, in the order given,
    /// which is that of insertion time; the messages are saved ones.
    pub fn from_msgs(msgs: Vec<Msg>) -> (c: Container)
        requires
            forall|i: int, j: int|
                0 <= i <= j < msgs@.len() ==> msgs@[i].time.insertion <= msgs@[j].time.insertion,
        ensures
            c.wf(),
            c.keys().len() == msgs@.len(),
            forall|i: int| 0 <= i < msgs@.len() ==> #[trigger] c.keys()[i] == split_of(msgs@[i], SaveStatus::Saved).0,
            forall|k: MsgId| #[trigger] c.data().contains_key(k) <==> exists|i: int|
                0 <= i < msgs@.len() && msgs@[i].message_id == k,
            distinct_ids(msgs@) ==> c.clean(),
            distinct_ids(msgs@) ==> forall|i: int|
                0 <= i < msgs@.len() ==> #[trigger] c.data_at(i) == split_of(msgs@[i], SaveStatus::Saved).1,
    {
        let mut c = Container::new();
        let mut msgs = msgs;
        let ghost all = msgs@;
        let ghost distinct = distinct_ids(all);
        let mut i: usize = 0;
        let n = msgs.len();
        while i < n
            invariant
                n == all.len(),
                i <= n,
                msgs@ == all.subrange(i as int, n as int),
                distinct == distinct_ids(all),
                c.wf(),
                distinct ==> c.clean(),
                c.keys().len() == i,
                forall|j: int| 0 <= j < i ==> #[trigger] c.keys()[j] == split_of(all[j], SaveStatus::Saved).0,
                forall|k: MsgId| #[trigger] c.data().contains_key(k) <==> exists|j: int|
                    0 <= j < i && all[j].message_id == k,
                distinct ==> forall|j: int|
                    0 <= j < i ==> #[trigger] c.data_at(j) == split_of(all[j], SaveStatus::Saved).1,
                forall|i1: int, j1: int|
                    0 <= i1 <= j1 < all.len() ==> all[i1].time.insertion <= all[j1].time.insertion,
            decreases n - i,
        {
            let m = msgs.remove(0);
            let (message, data) = split_msg(m, SaveStatus::Saved);
            let ghost s = c.keys();
            let ghost d0 = c.data();
            let ghost dv = data;
            let ghost c_old = c;
            proof {
                assert(message == split_of(all[i as int], SaveStatus::Saved).0);
                if i > 0 {
                    assert(s[i - 1] == split_of(all[i - 1], SaveStatus::Saved).0);
                }
                assert(fits_at(s, i as int, message.insertion_time));
                if distinct && d0.contains_key(message.msg_id) {
                    let k = choose|k: int| 0 <= k < s.len() && #[trigger] s[k].msg_id == message.msg_id;
                    assert(s[k] == split_of(all[k], SaveStatus::Saved).0);
                }
            }
            keys_insert(&mut c.list, i, message);
            data_insert(&mut c.map, message.msg_id, data);
            proof {
                let d1 = c.data();
                lemma_insert_keeps_weak_wf(s, d0, d1, i as int, message);
                if distinct {
                    lemma_insert_keeps_wf(s, d0, d1, i as int, message);
                }
                assert(s.insert(i as int, message) =~= s.push(message));
                assert forall|j: int| 0 <= j <= i implies #[trigger] c.keys()[j] == split_of(
                    all[j],
                    SaveStatus::Saved,
                ).0 by {
                    if j < i {
                        assert(c.keys()[j] == s[j]);
                    }
                }
                assert forall|k: MsgId| #[trigger] c.data().contains_key(k) <==> exists|j: int|
                    0 <= j < i + 1 && all[j].message_id == k by {
                    if k == message.msg_id {
                        assert(all[i as int].message_id == k);
                    }
                    if exists|j: int| 0 <= j < i + 1 && all[j].message_id == k {
                        let j = choose|j: int| 0 <= j < i + 1 && all[j].message_id == k;
                        if j < i {
                            assert(d0.contains_key(k));
                        }
                    }
                }
                if distinct {
                    assert forall|j: int| 0 <= j <= i implies #[trigger] c.data_at(j) == split_of(
                        all[j],
                        SaveStatus::Saved,
                    ).1 by {
                        if j < i {
                            assert(c.keys()[j] == s[j]);
                            assert(s[j].msg_id != message.msg_id);
                            assert(c_old.data_at(j) == split_of(all[j], SaveStatus::Saved).1);
                        }
                    }
                }
            }
            i = i + 1;
        }
        c
    }
}

} // verus!
