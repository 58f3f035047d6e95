//! The message list of a conversation: its container, its search and its reply builder.
pub mod builder;
pub mod container;
pub mod search;
pub mod store;
pub mod types;

use builder::{MessageBuilder, OpChanged};
use container::{container_wf, fits_at, op_missing, Container};
use search::{
    apply_search, cleared_calls, cleared_signals, clear_search, matches_set_signals, pattern_cleared, pattern_update,
    regex_update, search_calls, Match, PatternError, SearchChanged, SearchState,
};
use store::{belongs_at, found_at, sorted_by_time};
use types::{
    max_receipt, max_receipt_status, spec_same_flurry, split_msg, split_of, MatchStatus, Message, ReplyId,
    Msg, MsgData, SaveStatus, NO_ACK,
};
use crate::interface::messages::{MessagesEmitter, MessagesList, MessagesSignal};
use crate::signal::{
    after_call, after_calls, lemma_calls_concat, lemma_calls_none, lemma_calls_push, lemma_raised_concat, lemma_raised_more,
    lemma_raised_none, lemma_raised_one, raised, raised_all, ModelCall,
};
use crate::types::{
    id_from_slice, ids_equal, shows_text, some_text, users_equal, ConversationId, MsgId, Time, UserId,
};
use vstd::prelude::*;

verus! {

/// An operation could not find what it needed.
#[derive(PartialEq, Eq, Clone, Copy, Debug)]
pub struct NotFound;

/// Whether the message at `i` ends a flurry: it is the last, or the next one is
/// by someone else or too much later. `None` on an empty list or past the end.
pub open spec fn spec_is_tail(c: Container, i: int) -> Option<bool> {
    let n = c.keys().len();
    if n == 0 {
        None
    } else if i == n - 1 {
        Some(true)
    } else if 0 <= i < n - 1 {
        match (c.row(i), c.row(i + 1)) {
            (Some(a), Some(b)) => Some(!spec_same_flurry(a, b)),
            _ => None,
        }
    } else {
        None
    }
}

/// Whether the message at `i` starts a flurry: it is the first, or the one
/// before is by someone else or too much earlier. `None` on an empty list or
/// past the end.
pub open spec fn spec_is_head(c: Container, i: int) -> Option<bool> {
    let n = c.keys().len();
    if n == 0 {
        None
    } else if i == 0 {
        Some(true)
    } else if 0 < i < n {
        match (c.row(i), c.row(i - 1)) {
            (Some(a), Some(b)) => Some(!spec_same_flurry(a, b)),
            _ => None,
        }
    } else {
        None
    }
}

/// The index at which a message with insertion time `t` goes: the end when it is
/// no earlier than the last message, else where the search puts it (`None` when
/// a message with that time is there already).
pub open spec fn insert_place(keys: Seq<Message>, t: Time) -> Option<int> {
    if keys.len() == 0 || keys.last().insertion_time <= t {
        Some(keys.len() as int)
    } else if exists|j: int| 0 <= j < keys.len() && keys[j].insertion_time == t {
        None
    } else {
        Some((choose|i: usize| i <= keys.len() && #[trigger] belongs_at(keys, i, t)) as int)
    }
}

/// Some key of `keys` has insertion time `t`.
pub open spec fn time_present(keys: Seq<Message>, t: Time) -> bool {
    exists|j: int| 0 <= j < keys.len() && #[trigger] keys[j].insertion_time == t
}

/// How many keys of `keys` have an insertion time before `t`.
pub open spec fn count_earlier(keys: Seq<Message>, t: Time) -> nat
    decreases keys.len(),
{
    if keys.len() == 0 {
        0
    } else {
        count_earlier(keys.drop_last(), t) + if keys.last().insertion_time < t {
            1nat
        } else {
            0nat
        }
    }
}

/// In time order, with no key at time `t`, the keys earlier than `t` are
/// exactly those before `count_earlier(keys, t)`.
proof fn lemma_count_is_place(keys: Seq<Message>, t: Time)
    requires
        sorted_by_time(keys),
        !time_present(keys, t),
    ensures
        count_earlier(keys, t) <= keys.len(),
        forall|j: int| 0 <= j < count_earlier(keys, t) ==> #[trigger] keys[j].insertion_time < t,
        forall|j: int| count_earlier(keys, t) <= j < keys.len() ==> #[trigger] keys[j].insertion_time > t,
    decreases keys.len(),
{
    if keys.len() > 0 {
        let init = keys.drop_last();
        assert forall|j: int| 0 <= j < init.len() implies #[trigger] init[j].insertion_time != t by {
            assert(keys[j] == init[j]);
        }
        lemma_count_is_place(init, t);
        let c = count_earlier(init, t);
        let last = keys.len() - 1;
        assert(keys[last].insertion_time != t);
        if keys[last].insertion_time < t {
            assert forall|j: int| 0 <= j < init.len() implies init[j].insertion_time < t by {
                assert(keys[j].insertion_time <= keys[last].insertion_time);
            }
            if c < init.len() {
                assert(init[c as int].insertion_time > t);
                assert(init[c as int].insertion_time < t);
            }
        }
        assert forall|j: int| 0 <= j < count_earlier(keys, t) implies #[trigger] keys[j].insertion_time < t by {
            if j < init.len() {
                assert(keys[j] == init[j]);
            }
        }
        assert forall|j: int| count_earlier(keys, t) <= j < keys.len() implies #[trigger] keys[j].insertion_time > t by {
            if j < init.len() {
                assert(keys[j] == init[j]);
            }
        }
    }
}

/// Where a message goes counts the messages before it: in a list in time
/// order that holds no message with insertion time `t`, a message with that
/// time goes in at the index equal to the number of messages inserted before
/// `t`, so that the list stays in time order.
pub proof fn insertion_place_counts_earlier_messages(keys: Seq<Message>, t: Time)
    requires
        sorted_by_time(keys),
        !time_present(keys, t),
        keys.len() <= usize::MAX,
    ensures
        insert_place(keys, t) == Some(count_earlier(keys, t) as int),
{
    lemma_count_is_place(keys, t);
    let c = count_earlier(keys, t);
    assert(!(exists|j: int| 0 <= j < keys.len() && keys[j].insertion_time == t));
    if keys.len() == 0 || keys.last().insertion_time <= t {
        if c < keys.len() {
            assert(keys[keys.len() - 1].insertion_time > t);
        }
    } else {
        assert(belongs_at(keys, c as usize, t));
        let i = choose|i: usize| i <= keys.len() && #[trigger] belongs_at(keys, i, t);
        if i < c {
            assert(keys[i as int].insertion_time > t);
            assert(keys[i as int].insertion_time < t);
        } else if i > c {
            assert(keys[c as int].insertion_time > t);
            assert(keys[c as int].insertion_time < t);
        }
    }
}

/// `d` with the message `id`, when it holds it, given search status `status`.
pub open spec fn with_status(d: Map<MsgId, MsgData>, id: MsgId, status: MatchStatus) -> Map<MsgId, MsgData> {
    if d.contains_key(id) {
        d.insert(id, MsgData { match_status: status, ..d[id] })
    } else {
        d
    }
}

/// What moving the focus from match `old_m` to match `new_m` did to the data
/// `before` of a container with keys `keys`, giving `after`, and whether a row
/// came back (`found`). The same match changes no data, and a row comes back
/// when a key has its time. Otherwise the old match, when held, becomes
/// matched; when it is held but no key has its time, nothing more happens.
/// Else the new match, when there is one, becomes focused, and a row comes
/// back when it is held and a key has its time.
pub open spec fn focus_moved(
    keys: Seq<Message>,
    before: Map<MsgId, MsgData>,
    old_m: Option<Match>,
    new_m: Option<Match>,
    after: Map<MsgId, MsgData>,
    found: bool,
) -> bool {
    if old_m == new_m {
        &&& after == before
        &&& found == (new_m matches Some(m) && time_present(keys, m.0.insertion_time))
    } else {
        let d1 = match old_m {
            Some(o) => with_status(before, o.0.msg_id, MatchStatus::Matched),
            None => before,
        };
        let old_ok = !(old_m matches Some(o) && before.contains_key(o.0.msg_id) && !time_present(
            keys,
            o.0.insertion_time,
        ));
        &&& after == (match new_m {
            Some(n) => if old_ok {
                with_status(d1, n.0.msg_id, MatchStatus::Focused)
            } else {
                d1
            },
            None => d1,
        })
        &&& found == (old_ok && (new_m matches Some(n) && before.contains_key(n.0.msg_id) && time_present(
            keys,
            n.0.insertion_time,
        )))
    }
}

/// The signals that tell the view the last message changed, in the order they
/// are raised.
pub open spec fn last_changed_signals() -> Seq<MessagesSignal> {
    seq![
        MessagesSignal::LastAuthorChanged,
        MessagesSignal::LastBodyChanged,
        MessagesSignal::LastTimeChanged,
        MessagesSignal::LastStatusChanged,
    ]
}

/// Every row of the container has data, so a run over the rows goes to the end.
pub open spec fn all_rows_held(c: Container) -> bool {
    search::first_gap(c.keys(), c.data()) == c.keys().len()
}

/// A pattern with text is there, so an active search runs over the messages.
pub open spec fn search_runs(pattern: Option<search::PatternState>) -> bool {
    pattern matches Some(p) && p.raw@.len() > 0
}

/// What clearing the search of `before` did, giving `after`: the same messages,
/// none of them a match any more (the view hears of each row that was), no
/// matches and no focus, the pattern's text emptied, and the signals of a
/// cleared search raised.
pub open spec fn search_cleared(before: Messages, after: Messages) -> bool {
    let keys = before.container.keys();
    &&& after.container.keys() == keys
    &&& after.container.data().dom() == before.container.data().dom()
    &&& search::only_status_changed(before.container.data(), after.container.data())
    &&& before.container.clean() ==> after.container.clean()
    &&& after.container.data() == search::cleared(
        keys,
        before.container.data(),
        search::first_gap(keys, before.container.data()) as nat,
    )
    &&& all_rows_held(before.container) ==> forall|k: MsgId|
        #[trigger] after.container.data().contains_key(k) ==> after.container.data()[k].match_status
            == MatchStatus::NotMatched
    &&& before.container.clean() ==> forall|i: int|
        0 <= i < keys.len() ==> #[trigger] after.container.data_at(i) == (MsgData {
            match_status: MatchStatus::NotMatched,
            ..before.container.data_at(i)
        })
    &&& after.search.spec_matches().len() == 0
    &&& after.search.index is None
    &&& pattern_cleared(before.search.pattern, after.search.pattern)
    &&& after.model.target() == before.model.target()
    &&& after.model@ == after_calls(
        before.model@,
        before.model.target(),
        cleared_calls(keys, before.container.data(), search::first_gap(keys, before.container.data()) as nat),
    )
    &&& raised_all(before.emit@, after.emit@, cleared_signals())
}

/// The calls that tell the view that the row at `ix` goes.
pub open spec fn rows_removed(ix: usize) -> Seq<ModelCall> {
    seq![ModelCall::BeginRemoveRows { first: ix, last: ix }, ModelCall::EndRemoveRows]
}

/// The signals raised after the row at `ix` of `n` rows goes: the list became
/// empty when it was the only one, and the last message changed when it was the
/// last.
pub open spec fn removal_tail(n: nat, ix: usize) -> Seq<MessagesSignal> {
    (if n == 1 {
        seq![MessagesSignal::IsEmptyChanged]
    } else {
        Seq::<MessagesSignal>::empty()
    }) + (if ix + 1 == n {
        last_changed_signals()
    } else {
        Seq::<MessagesSignal>::empty()
    })
}

/// The signals raised after a row goes in at `ix` of a list of `n` rows: the
/// last message changed when it went in at the end, and the list is no longer
/// empty when it was.
pub open spec fn insertion_tail(n: nat, ix: usize) -> Seq<MessagesSignal> {
    (if ix == n {
        last_changed_signals()
    } else {
        Seq::<MessagesSignal>::empty()
    }) + (if n == 0 {
        seq![MessagesSignal::IsEmptyChanged]
    } else {
        Seq::<MessagesSignal>::empty()
    })
}

/// After a row goes, the view hears that the list is empty exactly when it had
/// one row, and that the last message changed exactly when the last row went.
pub proof fn removal_signals_follow_the_list(n: nat, ix: usize)
    requires
        ix < n,
    ensures
        removal_tail(n, ix).contains(MessagesSignal::IsEmptyChanged) <==> n == 1,
        removal_tail(n, ix).contains(MessagesSignal::LastBodyChanged) <==> ix + 1 == n,
{
    let t = removal_tail(n, ix);
    if n == 1 {
        assert(t[0] == MessagesSignal::IsEmptyChanged);
    }
    if ix + 1 == n {
        let k: int = if n == 1 { 2 } else { 1 };
        assert(t[k] == MessagesSignal::LastBodyChanged);
    }
}

/// After a row goes in, the view hears that the list is no longer empty exactly
/// when it was, and that the last message changed exactly when the row went in
/// at the end.
pub proof fn insertion_signals_follow_the_list(n: nat, ix: usize)
    requires
        ix <= n,
    ensures
        insertion_tail(n, ix).contains(MessagesSignal::IsEmptyChanged) <==> n == 0,
        insertion_tail(n, ix).contains(MessagesSignal::LastBodyChanged) <==> ix == n,
{
    let t = insertion_tail(n, ix);
    if n == 0 {
        assert(t[t.len() - 1] == MessagesSignal::IsEmptyChanged);
    }
    if ix == n {
        assert(t[1] == MessagesSignal::LastBodyChanged);
    }
}

/// The calls that a new match sends when it joins the search at the end of its
/// matches, its message being at row `ix`: the row at the match's position is
/// redrawn (as the list view numbers it), and the message's own row when the
/// focus moved on because of it.
pub open spec fn join_calls(search: SearchState, ix: usize) -> Seq<ModelCall> {
    let pos = search.spec_matches().len();
    seq![ModelCall::DataChanged { first: pos as usize, last: pos as usize }] + if search.index matches Some(i) && pos
        <= i {
        seq![ModelCall::DataChanged { first: ix, last: ix }]
    } else {
        Seq::<ModelCall>::empty()
    }
}

/// The rows next to a new row at `ix` that are redrawn because whether they
/// end a flurry changed between `before` and `after`: the row before, and the
/// row after (compared with the row that was at `ix` before).
pub open spec fn neighbours_redrawn(before: Container, after: Container, ix: usize) -> Seq<ModelCall> {
    (if ix > 0 && spec_is_tail(before, ix - 1) != spec_is_tail(after, ix - 1) {
        seq![ModelCall::DataChanged { first: (ix - 1) as usize, last: (ix - 1) as usize }]
    } else {
        Seq::<ModelCall>::empty()
    }) + (if ix + 1 < after.keys().len() && spec_is_tail(before, ix as int) != spec_is_tail(after, ix + 1) {
        seq![ModelCall::DataChanged { first: (ix + 1) as usize, last: (ix + 1) as usize }]
    } else {
        Seq::<ModelCall>::empty()
    })
}

/// The rows next to the removed row `ix` that are redrawn: the row before when
/// its flurry edges, read as (end, start) before and (start, end) after, differ;
/// and the row after the gap when the edges of the row that was at `ix`,
/// read as (end, start), differ from the start of the row before and the end
/// of that row after.
pub open spec fn removal_neighbours(before: Container, after: Container, ix: usize) -> Seq<ModelCall> {
    if ix > 0 {
        let prev_head = spec_is_head(after, ix - 1);
        (if (spec_is_tail(before, ix - 1), spec_is_head(before, ix - 1)) != (prev_head, spec_is_tail(after, ix - 1)) {
            seq![ModelCall::DataChanged { first: (ix - 1) as usize, last: (ix - 1) as usize }]
        } else {
            Seq::<ModelCall>::empty()
        }) + (if ix + 1 < after.keys().len() && (spec_is_tail(before, ix as int), spec_is_head(before, ix as int)) != (
        prev_head, spec_is_tail(after, ix + 1)) {
            seq![ModelCall::DataChanged { first: (ix + 1) as usize, last: (ix + 1) as usize }]
        } else {
            Seq::<ModelCall>::empty()
        })
    } else {
        Seq::<ModelCall>::empty()
    }
}

/// Search statuses changing leave where each flurry starts and ends.
pub proof fn lemma_status_keeps_flurries(c0: Container, c1: Container)
    requires
        c1.keys() == c0.keys(),
        search::only_status_changed(c0.data(), c1.data()),
    ensures
        forall|i: int| #[trigger] spec_is_tail(c1, i) == spec_is_tail(c0, i),
        forall|i: int| #[trigger] spec_is_head(c1, i) == spec_is_head(c0, i),
{
    assert forall|i: int| #[trigger] c1.row(i) matches Some(a) ==> c0.row(i) matches Some(b) && a.author == b.author
        && a.time == b.time by {
        if c1.row(i) is Some {
            let k = c1.keys()[i].msg_id;
            assert(c1.data().contains_key(k));
        }
    }
    assert forall|i: int| #[trigger] c1.row(i) is Some <==> c0.row(i) is Some by {
        if 0 <= i < c0.keys().len() {
            assert(c1.data().dom() == c0.data().dom());
            let k = c0.keys()[i].msg_id;
            assert(c1.data().contains_key(k) == c0.data().contains_key(k));
        }
    }
    assert forall|i: int| #[trigger] spec_is_tail(c1, i) == spec_is_tail(c0, i) by {
        let _ = c1.row(i);
        let _ = c1.row(i + 1);
    }
    assert forall|i: int| #[trigger] spec_is_head(c1, i) == spec_is_head(c0, i) by {
        let _ = c1.row(i);
        let _ = c1.row(i - 1);
    }
}

/// The calls that tell the view of a new row at `ix`.
pub open spec fn rows_inserted(ix: usize) -> Seq<ModelCall> {
    seq![ModelCall::BeginInsertRows { first: ix, last: ix }, ModelCall::EndInsertRows]
}

/// The calls that tell the view that `n` loaded messages fill the empty list.
pub open spec fn loaded_calls(n: nat) -> Seq<ModelCall> {
    seq![ModelCall::BeginInsertRows { first: 0, last: (n - 1) as usize }, ModelCall::EndInsertRows]
}

/// The signals raised when loaded messages fill the empty list: it is no longer
/// empty, and it has a last message.
pub open spec fn loaded_signals() -> Seq<MessagesSignal> {
    seq![MessagesSignal::IsEmptyChanged] + last_changed_signals()
}

/// What putting `msg` (saved as `save_status`) into the list `before` did,
/// given the result `r` and the list `after`: without a conversation it fails
/// and nothing changes; a message whose insertion time is already there
/// (before the last message) is dropped; a reply to a message the list lacks
/// fails; otherwise the message's key goes in at its place in time order, with
/// its data under its id (replacing the data of a message with the same id, as
/// storage keys data by id; its key stays), marked matched when it joins an
/// active search (`body_matches`
/// being what the pattern engine says of its body), the message it replies to
/// records it, the view is told of the new row before anything else, and the
/// conversation comes back as the one with new activity.
pub open spec fn insert_effect(
    before: Messages,
    after: Messages,
    msg: Msg,
    save_status: SaveStatus,
    body_matches: bool,
    r: Result<Option<ConversationId>, NotFound>,
) -> bool {
    let (key, d) = split_of(msg, save_status);
    let unchanged = after.container.keys() == before.container.keys() && after.container.data()
        == before.container.data();
    let untouched = after.search == before.search && after.model == before.model && after.emit == before.emit;
    &&& before.conversation_id is None ==> r is Err && unchanged && untouched
    &&& before.conversation_id is Some ==> match insert_place(
        before.container.keys(),
        msg.time.insertion,
    ) {
        None => r == Ok::<Option<ConversationId>, NotFound>(None) && unchanged && untouched,
        Some(place) => if op_missing(before.container.data(), msg.op) {
            r is Err && unchanged && untouched
        } else {
            let joins = before.search.active && before.search.pattern is Some && d.body.is_some() && body_matches
                && search::joins_matches(before.search.spec_matches(), d.time.insertion);
            &&& r == Ok::<Option<ConversationId>, NotFound>(before.conversation_id)
            &&& after.search.spec_matches() == if joins {
                before.search.spec_matches().push(Match(key))
            } else {
                before.search.spec_matches()
            }
            &&& after.search.active == before.search.active
            &&& after.search.pattern == before.search.pattern
            &&& after.container.keys() == before.container.keys().insert(place, key)
            &&& after.container.data().contains_key(msg.message_id)
            &&& after.container.data()[msg.message_id] == if joins {
                MsgData { match_status: MatchStatus::Matched, ..d }
            } else {
                d
            }
            &&& container::op_records_reply(before.container.data(), after.container.data(), d.op, msg.message_id)
            &&& after.model@ == after_calls(
                after_calls(before.model@, before.model.target(), rows_inserted(place as usize)),
                before.model.target(),
                (if joins {
                    join_calls(before.search, place as usize)
                } else {
                    Seq::<ModelCall>::empty()
                }) + neighbours_redrawn(before.container, after.container, place as usize),
            )
            &&& exists|sg: Seq<MessagesSignal>|
                sg.len() <= 1 && search::search_only(sg) && #[trigger] raised_all(
                    before.emit@,
                    after.emit@,
                    sg + insertion_tail(before.container.keys().len(), place as usize),
                )
        },
    }
    &&& after.conversation_id == before.conversation_id
}

/// The messages of one conversation, with their search and reply builder.
pub struct Messages {
    pub emit: MessagesEmitter,
    pub model: MessagesList,
    pub local_id: Option<UserId>,
    pub conversation_id: Option<ConversationId>,
    pub container: Container,
    pub search: SearchState,
    pub builder: MessageBuilder,
}

impl Messages {
    /// The invariant: the container is well formed.
    pub open spec fn wf(&self) -> bool {
        self.container.wf()
    }

    /// An empty message list for the local user `local_id` (when known), with no
    /// conversation yet.
    pub fn new_(
        emit: MessagesEmitter,
        model: MessagesList,
        builder: MessageBuilder,
        local_id: Option<UserId>,
    ) -> (m: Messages)
        ensures
            m.wf(),
            m.container.keys().len() == 0,
            m.conversation_id is None,
            m.local_id == local_id,
            !m.search.active,
    {
        Messages {
            model,
            emit,
            container: Container::new(),
            conversation_id: None,
            local_id,
            search: SearchState::new(),
            builder,
        }
    }

    /// Whether there are no messages.
    pub fn is_empty(&self) -> (e: bool)
        ensures
            e == (self.container.keys().len() == 0),
    {
        self.container.is_empty()
    }

    /// The number of messages.
    pub fn row_count(&self) -> (n: usize)
        ensures
            n == self.container.keys().len(),
    {
        self.container.len()
    }

    /// Whether the message at `index` ends a flurry.
    pub fn is_tail_(&self, index: usize) -> (t: Option<bool>)
        requires
            self.wf(),
        ensures
            t == spec_is_tail(self.container, index as int),
    {
        if self.container.is_empty() {
            return None;
        }
        if index == self.container.len() - 1 {
            return Some(true);
        }
        if index >= self.container.len() {
            return None;
        }
        let msg = match self.container.msg_data(index) {
            Some(m) => m,
            None => {
                return None;
            },
        };
        let succ = match self.container.msg_data(index + 1) {
            Some(m) => m,
            None => {
                return None;
            },
        };
        Some(!msg.same_flurry(succ))
    }

    /// Whether the message at `index` starts a flurry.
    pub fn is_head_(&self, index: usize) -> (h: Option<bool>)
        requires
            self.wf(),
        ensures
            h == spec_is_head(self.container, index as int),
    {
        if self.container.is_empty() {
            return None;
        }
        if index == 0 {
            return Some(true);
        }
        if index >= self.container.len() {
            return None;
        }
        let msg = match self.container.msg_data(index) {
            Some(m) => m,
            None => {
                return None;
            },
        };
        let prev = match self.container.msg_data(index - 1) {
            Some(m) => m,
            None => {
                return None;
            },
        };
        Some(!msg.same_flurry(prev))
    }

    /// The highest receipt status of the message at `index`, `NO_ACK` when it
    /// has no receipts; `None` past the end.
    pub fn receipt_status_(&self, index: usize) -> (s: Option<u32>)
        requires
            self.wf(),
        ensures
            match self.container.row(index as int) {
                Some(d) => s == Some(
                match max_receipt(d.receipts@) {
                    Some(m) => m,
                    None => NO_ACK,
                },
            ),
                None => s is None,
            },
    {
        match self.container.msg_data(index) {
            None => None,
            Some(d) => match max_receipt_status(&d.receipts) {
                Some(m) => Some(m),
                None => Some(NO_ACK),
            },
        }
    }

    /// The highest receipt status of the last message; `None` when there are no
    /// messages or no receipts.
    pub fn last_status_(&self) -> (s: Option<u32>)
        requires
            self.wf(),
        ensures
            match self.container.row(self.container.keys().len() - 1) {
                Some(d) => s == max_receipt(d.receipts@),
                None => s is None,
            },
    {
        match self.container.last_msg() {
            None => None,
            Some(d) => max_receipt_status(&d.receipts),
        }
    }

    /// The author of the last message: "You" when it is the local user; `None`
    /// when there is no message or the local user is not known.
    pub fn last_author_(&self) -> (a: Option<&str>)
        requires
            self.wf(),
        ensures
            match (self.container.row(self.container.keys().len() - 1), self.local_id) {
                (Some(d), Some(me)) => some_text(a, if d.author@ == me@ { "You"@ } else { d.author@ }),
                _ => a is None,
            },
    {
        let last = match self.container.last_msg() {
            Some(l) => l,
            None => {
                return None;
            },
        };
        let local = match &self.local_id {
            Some(l) => l,
            None => {
                return None;
            },
        };
        if users_equal(&last.author, local) {
            Some("You")
        } else {
            Some(last.author.as_str())
        }
    }

    /// The body of the last message, if there is one and it has a body.
    pub fn last_body(&self) -> (b: Option<&str>)
        requires
            self.wf(),
        ensures
            match self.container.row(self.container.keys().len() - 1) {
                Some(d) => shows_text(
                b,
                d.body,
            ),
                None => b is None,
            },
    {
        match self.container.last_msg() {
            None => None,
            Some(d) => match &d.body {
                Some(body) => Some(body.as_str()),
                None => None,
            },
        }
    }

    /// The insertion time of the last message.
    pub fn last_time(&self) -> (t: Option<i64>)
        requires
            self.wf(),
        ensures
            match self.container.row(self.container.keys().len() - 1) {
                Some(d) => t == Some(
                d.time.insertion,
            ),
                None => t is None,
            },
    {
        match self.container.last_msg() {
            None => None,
            Some(d) => Some(d.time.insertion),
        }
    }

    /// The index of the message whose id is the bytes `msg_id`, or `u32::MAX` as a
    /// `u64` when the bytes are no id or the message is not there.
    pub fn index_by_id_(&self, msg_id: &[u8]) -> (ix: u64)
        requires
            self.wf(),
        ensures
            msg_id@.len() != 32 ==> ix == u32::MAX as u64,
            msg_id@.len() == 32 ==> {
                let id = choose|a: [u8; 32]| a@ == msg_id@;
                let listed = self.container.data().contains_key(id) && exists|j: int|
                    0 <= j < self.container.keys().len() && #[trigger] self.container.keys()[j].insertion_time
                        == self.container.data()[id].time.insertion;
                &&& !listed ==> ix == u32::MAX as u64
                &&& listed ==> found_at(
                    self.container.keys(),
                    ix as usize,
                    self.container.data()[id].time.insertion,
                )
            },
    {
        let ret_val: u64 = 4294967295;
        let id = match id_from_slice(msg_id) {
            Some(id) => id,
            None => {
                return ret_val;
            },
        };
        proof {
            let c = choose|a: [u8; 32]| a@ == msg_id@;
            broadcast use vstd::array::group_array_axioms;
            assert(c =~= id);
        }
        match self.container.index_by_id(id) {
            Some(i) => {
                proof {
                    assert(self.container.keys()[i as int].insertion_time == self.container.data()[id].time.insertion);
                }
                i as u64
            },
            None => ret_val,
        }
    }

    /// Whether the message at `index` is stored.
    pub fn data_saved(&self, index: usize) -> (s: Option<bool>)
        requires
            self.wf(),
        ensures
            match self.container.row(index as int) {
                Some(d) => s == Some(
                d.save_status == SaveStatus::Saved,
            ),
                None => s is None,
            },
    {
        match self.container.msg_data(index) {
            None => None,
            Some(d) => Some(
                match d.save_status {
                    SaveStatus::Saved => true,
                    SaveStatus::Unsaved => false,
                },
            ),
        }
    }

    /// The author of the message at `index`.
    pub fn author(&self, index: usize) -> (a: Option<&str>)
        requires
            self.wf(),
        ensures
            match self.container.row(index as int) {
                Some(d) => some_text(
                a,
                d.author@,
            ),
                None => a is None,
            },
    {
        match self.container.msg_data(index) {
            None => None,
            Some(d) => Some(d.author.as_str()),
        }
    }

    /// The body of the message at `index`, if it has one.
    pub fn body(&self, index: usize) -> (b: Option<&str>)
        requires
            self.wf(),
        ensures
            match self.container.row(index as int) {
                Some(d) => shows_text(
                b,
                d.body,
            ),
                None => b is None,
            },
    {
        match self.container.msg_data(index) {
            None => None,
            Some(d) => match &d.body {
                Some(body) => Some(body.as_str()),
                None => None,
            },
        }
    }

    /// The id of the message at `index`.
    pub fn msg_id(&self, index: usize) -> (id: Option<&MsgId>)
        ensures
            index >= self.container.keys().len() ==> id is None,
            index < self.container.keys().len() ==> id == Some(
                &self.container.keys()[index as int].msg_id,
            ),
    {
        match self.container.get(index) {
            None => None,
            Some(m) => Some(&m.msg_id),
        }
    }

    /// Whether the message at `index` has attachments.
    pub fn has_attachments(&self, index: usize) -> (h: Option<bool>)
        requires
            self.wf(),
        ensures
            match self.container.row(index as int) {
                Some(d) => h == Some(
                d.has_attachments,
            ),
                None => h is None,
            },
    {
        match self.container.msg_data(index) {
            None => None,
            Some(d) => Some(d.has_attachments),
        }
    }

    /// The search status of the message at `index`, as the view numbers it.
    pub fn match_status(&self, index: usize) -> (s: Option<u8>)
        requires
            self.wf(),
        ensures
            match self.container.row(index as int) {
                Some(d) => s == Some(
                match d.match_status {
                    MatchStatus::NotMatched => 0u8,
                    MatchStatus::Matched => 1u8,
                    MatchStatus::Focused => 2u8,
                },
            ),
                None => s is None,
            },
    {
        match self.container.msg_data(index) {
            None => None,
            Some(d) => Some(d.match_status.code()),
        }
    }

    /// The insertion time of the message at `index`.
    pub fn insertion_time(&self, index: usize) -> (t: Option<i64>)
        ensures
            index >= self.container.keys().len() ==> t is None,
            index < self.container.keys().len() ==> t == Some(
                self.container.keys()[index as int].insertion_time,
            ),
    {
        match self.container.get(index) {
            None => None,
            Some(m) => Some(m.insertion_time),
        }
    }

    /// The expiration time of the message at `index`, if it expires.
    pub fn expiration_time(&self, index: usize) -> (t: Option<i64>)
        requires
            self.wf(),
        ensures
            match self.container.row(index as int) {
                Some(d) => t == d.time.expiration,
                None => t is None,
            },
    {
        match self.container.msg_data(index) {
            None => None,
            Some(d) => d.time.expiration,
        }
    }

    /// The time the server saw the message at `index`, if it did.
    pub fn server_time(&self, index: usize) -> (t: Option<i64>)
        requires
            self.wf(),
        ensures
            match self.container.row(index as int) {
                Some(d) => t == d.time.server,
                None => t is None,
            },
    {
        match self.container.msg_data(index) {
            None => None,
            Some(d) => d.time.server,
        }
    }

    /// The one-based index of the focused match, 0 without a focus.
    pub fn search_index(&self) -> (i: u64)
        requires
            self.search.index matches Some(ix) ==> ix < u64::MAX,
        ensures
            i == match self.search.index {
                Some(ix) => ix + 1,
                None => 0,
            },
    {
        match self.search.index {
            Some(ix) => (ix as u64) + 1,
            None => 0,
        }
    }

    /// The number of search matches.
    pub fn search_num_matches(&self) -> (n: u64)
        ensures
            n == self.search.spec_matches().len(),
    {
        self.search.num_matches() as u64
    }

    /// Whether the search is on.
    pub fn search_active(&self) -> (a: bool)
        ensures
            a == self.search.active,
    {
        self.search.active
    }

    /// Whether the search pattern is a regular expression.
    pub fn search_regex(&self) -> (r: bool)
        ensures
            r == (self.search.pattern matches Some(p) && p.regex),
    {
        self.search.is_regex()
    }

    /// The search pattern's text, empty without a pattern.
    pub fn search_pattern_(&self) -> (p: &str)
        ensures
            self.search.pattern is None ==> p@ == ""@,
            self.search.pattern matches Some(pat) ==> p@ == pat.raw@,
    {
        match &self.search.pattern {
            Some(pat) => pat.raw.as_str(),
            None => "",
        }
    }

    /// The body of the message that the message at `index` replies to.
    pub fn op_body_(&self, index: usize) -> (b: Option<&str>)
        requires
            self.wf(),
        ensures
            match self.container.op_data(index as int) {
                Some(od) => shows_text(b, od.body),
                None => b is None,
            },
    {
        match self.container.op_body(index) {
            None => None,
            Some(body) => match body {
                Some(text) => Some(text.as_str()),
                None => None,
            },
        }
    }

    /// Tells the view that everything it shows of the last message changed.
    pub fn emit_last_changed(&mut self)
        ensures
            final(self).container == old(self).container,
            final(self).search == old(self).search,
            final(self).model == old(self).model,
            final(self).conversation_id == old(self).conversation_id,
            final(self).local_id == old(self).local_id,
            final(self).builder == old(self).builder,
            raised_all(old(self).emit@, final(self).emit@, last_changed_signals()),
    {
        let ghost e0 = self.emit@;
        self.emit.last_author_changed();
        let ghost e1 = self.emit@;
        self.emit.last_body_changed();
        let ghost e2 = self.emit@;
        self.emit.last_time_changed();
        let ghost e3 = self.emit@;
        self.emit.last_status_changed();
        proof {
            let sg = last_changed_signals();
            lemma_raised_none(e0);
            assert(sg.take(0) =~= Seq::<MessagesSignal>::empty());
            lemma_raised_more(e0, e0, e1, sg.take(0), sg[0]);
            assert(sg.take(0).push(sg[0]) =~= sg.take(1));
            lemma_raised_more(e0, e1, e2, sg.take(1), sg[1]);
            assert(sg.take(1).push(sg[1]) =~= sg.take(2));
            lemma_raised_more(e0, e2, e3, sg.take(2), sg[2]);
            assert(sg.take(2).push(sg[2]) =~= sg.take(3));
            lemma_raised_more(e0, e3, self.emit@, sg.take(3), sg[3]);
            assert(sg.take(3).push(sg[3]) =~= sg);
        }
    }

    /// Tells the view that the row at `ix` changed, when there is such a row.
    pub fn entry_changed(&mut self, ix: usize)
        ensures
            final(self).container == old(self).container,
            final(self).search == old(self).search,
            final(self).conversation_id == old(self).conversation_id,
            final(self).model.target() == old(self).model.target(),
            final(self).emit == old(self).emit,
            final(self).builder == old(self).builder,
            final(self).local_id == old(self).local_id,
            ix < old(self).container.keys().len() ==> final(self).model@ == crate::signal::after_call(
                old(self).model@,
                old(self).model.target(),
                ModelCall::DataChanged { first: ix, last: ix },
            ),
            ix >= old(self).container.keys().len() ==> final(self).model@ == old(self).model@,
    {
        if ix < self.container.len() {
            self.model.data_changed(ix, ix);
        }
    }

    /// Moves the focus between two matches: marks the old one matched and the new
    /// one focused, telling the view of each, and gives the container index of the
    /// new one. When the focus stays on the same match only its index is given.
    pub fn match_helper(
        &mut self,
        before: (Option<Match>, Option<usize>),
        after: (Option<Match>, Option<usize>),
    ) -> (ix: Option<usize>)
        requires
            old(self).wf(),
        ensures
            final(self).wf(),
            final(self).container.keys() == old(self).container.keys(),
            final(self).search == old(self).search,
            final(self).conversation_id == old(self).conversation_id,
            ix matches Some(i) ==> after.0 matches Some(m) && found_at(
                old(self).container.keys(),
                i,
                m.0.insertion_time,
            ),
            after.0 is None ==> ix is None,
            before.1 != after.1 ==> raised(old(self).emit@, final(self).emit@, MessagesSignal::SearchIndexChanged),
            before.1 == after.1 ==> final(self).emit@ == old(self).emit@,
            focus_moved(
                old(self).container.keys(),
                old(self).container.data(),
                before.0,
                after.0,
                final(self).container.data(),
                ix is Some,
            ),
    {
        let (old_match, old_index) = before;
        let (new_match, new_index) = after;
        if old_index != new_index {
            self.emit.search_index_changed();
        }
        if same_match(&old_match, &new_match) {
            return match new_match {
                Some(m) => self.container.index_of(&m.0),
                None => None,
            };
        }
        match old_match {
            Some(o) => {
                if self.container.set_match_status(&o.0.msg_id, MatchStatus::Matched).is_some() {
                    let ix = match self.container.index_of(&o.0) {
                        Some(ix) => ix,
                        None => {
                            return None;
                        },
                    };
                    self.entry_changed(ix);
                }
            },
            None => {},
        }
        let n = match new_match {
            Some(n) => n,
            None => {
                return None;
            },
        };
        match self.container.set_match_status(&n.0.msg_id, MatchStatus::Focused) {
            Some(()) => {},
            None => {
                return None;
            },
        }
        let ix = match self.container.index_of(&n.0) {
            Some(ix) => ix,
            None => {
                return None;
            },
        };
        self.entry_changed(ix);
        Some(ix)
    }

    /// Steps the focus to the previous match; the container index of the match
    /// that then has the focus.
    pub fn prev_match_helper(&mut self) -> (ix: Option<usize>)
        requires
            old(self).wf(),
        ensures
            final(self).wf(),
            final(self).container.keys() == old(self).container.keys(),
            final(self).search.spec_matches() == old(self).search.spec_matches(),
            final(self).search.active == old(self).search.active,
            old(self).search.active ==> final(self).search.index == Some(
                search::spec_prev_index(
                    old(self).search.index,
                    old(self).search.spec_start(),
                    old(self).search.spec_matches().len(),
                ) as usize,
            ),
            !old(self).search.active ==> ix is None,
            ix matches Some(i) ==> i < old(self).container.keys().len(),
            ix is Some ==> (search::match_at(old(self).search.spec_matches(), search::spec_prev_index(
                    old(self).search.index,
                    old(self).search.spec_start(),
                    old(self).search.spec_matches().len(),
                )) matches Some(m)
                && found_at(old(self).container.keys(), ix.unwrap(), m.0.insertion_time)),
            final(self).search.spec_start() == old(self).search.spec_start(),
    {
        let before = (self.search.current(), self.search.index);
        let m = self.search.prev();
        let after = (m, self.search.index);
        self.match_helper(before, after)
    }

    /// Steps the focus to the next match; the container index of the match that
    /// then has the focus.
    pub fn next_match_helper(&mut self) -> (ix: Option<usize>)
        requires
            old(self).wf(),
            old(self).search.index is Some ==> old(self).search.spec_matches().len() > 0,
            old(self).search.index matches Some(i) ==> i < usize::MAX,
        ensures
            final(self).wf(),
            final(self).container.keys() == old(self).container.keys(),
            final(self).search.spec_matches() == old(self).search.spec_matches(),
            final(self).search.active == old(self).search.active,
            old(self).search.active ==> final(self).search.index == Some(
                search::spec_next_index(
                    old(self).search.index,
                    old(self).search.spec_start(),
                    old(self).search.spec_matches().len(),
                ) as usize,
            ),
            !old(self).search.active ==> ix is None,
            ix matches Some(i) ==> i < old(self).container.keys().len(),
            ix is Some ==> (search::match_at(old(self).search.spec_matches(), search::spec_next_index(
                    old(self).search.index,
                    old(self).search.spec_start(),
                    old(self).search.spec_matches().len(),
                )) matches Some(m)
                && found_at(old(self).container.keys(), ix.unwrap(), m.0.insertion_time)),
            final(self).search.spec_start() == old(self).search.spec_start(),
    {
        let before = (self.search.current(), self.search.index);
        let m = self.search.next();
        let after = (m, self.search.index);
        self.match_helper(before, after)
    }

    /// Steps to the next match: its container index, or -1 when there is none.
    pub fn next_search_match(&mut self) -> (r: i64)
        requires
            old(self).wf(),
            old(self).search.index is Some ==> old(self).search.spec_matches().len() > 0,
            old(self).search.index matches Some(i) ==> i < usize::MAX,
            old(self).container.keys().len() <= i64::MAX,
        ensures
            final(self).wf(),
            r >= -1,
            !old(self).search.active ==> r == -1,
            final(self).search.spec_matches() == old(self).search.spec_matches(),
            final(self).search.active == old(self).search.active,
            old(self).search.active ==> final(self).search.index == Some(search::spec_next_index(
                    old(self).search.index,
                    old(self).search.spec_start(),
                    old(self).search.spec_matches().len(),
                ) as usize),
            old(self).search.active && old(self).search.index is None && old(self).search.spec_start() is None
                ==> final(self).search.index == Some(0usize),
            r >= 0 ==> (search::match_at(old(self).search.spec_matches(), search::spec_next_index(
                    old(self).search.index,
                    old(self).search.spec_start(),
                    old(self).search.spec_matches().len(),
                )) matches Some(m)
                && found_at(old(self).container.keys(), r as usize, m.0.insertion_time)),
    {
        match self.next_match_helper() {
            Some(ix) => ix as i64,
            None => -1,
        }
    }

    /// Steps to the previous match: its container index, or -1 when there is none.
    pub fn prev_search_match(&mut self) -> (r: i64)
        requires
            old(self).wf(),
            old(self).container.keys().len() <= i64::MAX,
        ensures
            final(self).wf(),
            r >= -1,
            !old(self).search.active ==> r == -1,
            final(self).search.spec_matches() == old(self).search.spec_matches(),
            final(self).search.active == old(self).search.active,
            old(self).search.active ==> final(self).search.index == Some(search::spec_prev_index(
                    old(self).search.index,
                    old(self).search.spec_start(),
                    old(self).search.spec_matches().len(),
                ) as usize),
            old(self).search.active && old(self).search.index is None && old(self).search.spec_start() is None
                && old(self).search.spec_matches().len() > 0 ==> final(self).search.index == Some(
                (old(self).search.spec_matches().len() - 1) as usize,
            ),
            r >= 0 ==> (search::match_at(old(self).search.spec_matches(), search::spec_prev_index(
                    old(self).search.index,
                    old(self).search.spec_start(),
                    old(self).search.spec_matches().len(),
                )) matches Some(m)
                && found_at(old(self).container.keys(), r as usize, m.0.insertion_time)),
    {
        match self.prev_match_helper() {
            Some(ix) => ix as i64,
            None => -1,
        }
    }

    /// Clears the search: every message loses its search status, and the
    /// pattern, matches and focus go.
    pub fn clear_search_(&mut self)
        requires
            old(self).wf(),
        ensures
            final(self).wf(),
            final(self).container.keys() == old(self).container.keys(),
            final(self).search.spec_matches().len() == 0,
            final(self).search.index is None,
            final(self).search.active == old(self).search.active,
            old(self).container.clean() ==> forall|i: int|
                0 <= i < old(self).container.keys().len() ==> #[trigger] final(self).container.data_at(
                    i,
                ).match_status == MatchStatus::NotMatched,
            search_cleared(*old(self), *final(self)),
            final(self).conversation_id == old(self).conversation_id,
    {
        clear_search(&mut self.container, &mut self.model);
        let _ = self.search.clear_search(&mut self.emit);
    }

    /// Turns the search on or off. Off clears it; on (from off) runs it over the
    /// messages, `body_matches[i]` being what the pattern engine says of the body
    /// of the message at `i`.
    pub fn set_search_active_(&mut self, active: bool, body_matches: &Vec<bool>)
        requires
            old(self).wf(),
            body_matches@.len() == old(self).container.keys().len(),
        ensures
            final(self).wf(),
            final(self).container.keys() == old(self).container.keys(),
            final(self).search.active == active,
            !active ==> final(self).search.spec_matches().len() == 0 && final(self).search.index is None,
            old(self).container.clean() ==> final(self).container.clean(),
            active && !old(self).search.active ==> final(self).search.index is None,
            active && !old(self).search.active ==> final(self).search.spec_matches() == if search_runs(
                old(self).search.pattern,
            ) && all_rows_held(old(self).container) {
                search::hits(
                    old(self).container.keys(),
                    old(self).container.data(),
                    body_matches@,
                    old(self).container.keys().len(),
                )
            } else {
                Seq::<Match>::empty()
            },
            active && !old(self).search.active ==> final(self).container.data() == if search_runs(
                old(self).search.pattern,
            ) {
                search::searched(
                    old(self).container.keys(),
                    old(self).container.data(),
                    body_matches@,
                    search::first_gap(old(self).container.keys(), old(self).container.data()) as nat,
                )
            } else {
                old(self).container.data()
            },
            active && old(self).search.active ==> final(self).search == old(self).search
                && final(self).emit@ == old(self).emit@ && final(self).model@ == old(self).model@,
            !active ==> search_cleared(*old(self), *final(self)),
            active && !old(self).search.active ==> raised_all(
                old(self).emit@,
                final(self).emit@,
                seq![MessagesSignal::SearchActiveChanged] + (if search_runs(old(self).search.pattern)
                    && all_rows_held(old(self).container) {
                    seq![MessagesSignal::SearchNumMatchesChanged]
                } else {
                    Seq::<MessagesSignal>::empty()
                }) + matches_set_signals(),
            ),
            active && !old(self).search.active ==> final(self).model@ == if search_runs(old(self).search.pattern) {
                after_calls(
                    old(self).model@,
                    old(self).model.target(),
                    search_calls(
                        old(self).container.keys(),
                        old(self).container.data(),
                        body_matches@,
                        search::first_gap(old(self).container.keys(), old(self).container.data()) as nat,
                    ),
                )
            } else {
                old(self).model@
            },
    {
        if !active {
            self.search.active = false;
            self.clear_search_();
        } else if !self.search.active {
            self.search.active = true;
            let ghost c0 = self.container;
            let ghost e0 = self.emit@;
            self.emit.search_active_changed();
            let ghost e1 = self.emit@;
            proof {
                lemma_raised_one(e0, e1, MessagesSignal::SearchActiveChanged);
            }
            let found = apply_search(
                &mut self.container,
                &self.search,
                body_matches,
                &mut self.model,
                &mut self.emit,
            );
            let ghost e2 = self.emit@;
            let ghost mid = if search_runs(self.search.pattern) && all_rows_held(c0) {
                seq![MessagesSignal::SearchNumMatchesChanged]
            } else {
                Seq::<MessagesSignal>::empty()
            };
            proof {
                if search_runs(self.search.pattern) && all_rows_held(c0) {
                    lemma_raised_one(e1, e2, MessagesSignal::SearchNumMatchesChanged);
                } else {
                    lemma_raised_none(e1);
                }
                lemma_raised_concat(e0, e1, e2, seq![MessagesSignal::SearchActiveChanged], mid);
            }
            let matches = match found {
                Some(m) => m,
                None => Vec::new(),
            };
            self.search.set_matches(matches, &mut self.emit);
            proof {
                lemma_raised_concat(e0, e2, self.emit@, seq![MessagesSignal::SearchActiveChanged] + mid, matches_set_signals());
            }
        }
    }

    /// Sets the search pattern text. An empty text clears the search; a changed
    /// text that compiles (`compiles`) reruns an active search, with
    /// `body_matches[i]` what the pattern engine says of the new pattern and the
    /// body of the message at `i`.
    pub fn set_search_pattern_(&mut self, pattern: String, compiles: bool, body_matches: &Vec<bool>)
        requires
            old(self).wf(),
            body_matches@.len() == old(self).container.keys().len(),
        ensures
            final(self).wf(),
            final(self).container.keys() == old(self).container.keys(),
            final(self).search.active == old(self).search.active,
            pattern@.len() == 0 ==> final(self).search.spec_matches().len() == 0,
            pattern@.len() == 0 ==> search_cleared(*old(self), *final(self)),
            old(self).container.clean() ==> final(self).container.clean(),
            pattern@.len() > 0 ==> exists|r: Result<SearchChanged, PatternError>| {
                &&& #[trigger] pattern_update(old(self).search.pattern, final(self).search.pattern, pattern@, compiles, r)
                &&& r == Ok::<SearchChanged, PatternError>(SearchChanged::Changed) && old(self).search.active
                    ==> final(self).search.spec_matches() == (if all_rows_held(old(self).container) {
                    search::hits(
                        old(self).container.keys(),
                        old(self).container.data(),
                        body_matches@,
                        old(self).container.keys().len(),
                    )
                } else {
                    Seq::<Match>::empty()
                }) && final(self).search.index is None
                &&& r == Ok::<SearchChanged, PatternError>(SearchChanged::Changed) && old(self).search.active
                    ==> final(self).container.data() == search::searched(
                        old(self).container.keys(),
                        old(self).container.data(),
                        body_matches@,
                        search::first_gap(old(self).container.keys(), old(self).container.data()) as nat,
                    ) && final(self).model@ == after_calls(
                        old(self).model@,
                        old(self).model.target(),
                        search::search_calls(
                            old(self).container.keys(),
                            old(self).container.data(),
                            body_matches@,
                            search::first_gap(old(self).container.keys(), old(self).container.data()) as nat,
                        ),
                    )
                &&& !(r == Ok::<SearchChanged, PatternError>(SearchChanged::Changed) && old(self).search.active)
                    ==> final(self).search.spec_matches() == old(self).search.spec_matches()
                    && final(self).search.index == old(self).search.index
                    && final(self).container.data() == old(self).container.data()
                    && final(self).model@ == old(self).model@
                &&& r == Ok::<SearchChanged, PatternError>(SearchChanged::Changed) && old(self).search.active
                    ==> raised_all(
                    old(self).emit@,
                    final(self).emit@,
                    seq![MessagesSignal::SearchPatternChanged] + (if all_rows_held(old(self).container) {
                        seq![MessagesSignal::SearchNumMatchesChanged]
                    } else {
                        Seq::<MessagesSignal>::empty()
                    }) + matches_set_signals(),
                )
                &&& r == Ok::<SearchChanged, PatternError>(SearchChanged::Changed) && !old(self).search.active
                    ==> raised(old(self).emit@, final(self).emit@, MessagesSignal::SearchPatternChanged)
                &&& r != Ok::<SearchChanged, PatternError>(SearchChanged::Changed) ==> final(self).emit@
                    == old(self).emit@
            },
            final(self).model.target() == old(self).model.target(),
    {
        if pattern.as_str().is_empty() {
            self.clear_search_();
            return;
        }
        let ghost c0 = self.container;
        let ghost e0 = self.emit@;
        let r = self.search.set_pattern(pattern, compiles, &mut self.emit);
        let ghost e1 = self.emit@;
        let changed = match r {
            Ok(c) => c.changed(),
            Err(_) => false,
        };
        if changed && self.search.active {
            proof {
                lemma_raised_one(e0, e1, MessagesSignal::SearchPatternChanged);
            }
            let found = apply_search(
                &mut self.container,
                &self.search,
                body_matches,
                &mut self.model,
                &mut self.emit,
            );
            let ghost e2 = self.emit@;
            let ghost mid = if all_rows_held(c0) {
                seq![MessagesSignal::SearchNumMatchesChanged]
            } else {
                Seq::<MessagesSignal>::empty()
            };
            proof {
                if all_rows_held(c0) {
                    lemma_raised_one(e1, e2, MessagesSignal::SearchNumMatchesChanged);
                } else {
                    lemma_raised_none(e1);
                }
                lemma_raised_concat(e0, e1, e2, seq![MessagesSignal::SearchPatternChanged], mid);
            }
            let matches = match found {
                Some(m) => m,
                None => Vec::new(),
            };
            self.search.set_matches(matches, &mut self.emit);
            proof {
                lemma_raised_concat(e0, e2, self.emit@, seq![MessagesSignal::SearchPatternChanged] + mid, matches_set_signals());
            }
        }
    }

    /// Switches the search between regular-expression and normal mode; a change
    /// (the pattern compiling in the new mode, `compiles`) reruns the search, with
    /// `body_matches[i]` what the pattern engine says of the body of the message
    /// at `i` under the new mode.
    pub fn set_search_regex_(&mut self, use_regex: bool, compiles: bool, body_matches: &Vec<bool>)
        requires
            old(self).wf(),
            body_matches@.len() == old(self).container.keys().len(),
        ensures
            final(self).wf(),
            final(self).container.keys() == old(self).container.keys(),
            final(self).search.active == old(self).search.active,
            old(self).container.clean() ==> final(self).container.clean(),
            exists|r: Result<SearchChanged, PatternError>| {
                &&& #[trigger] regex_update(old(self).search.pattern, final(self).search.pattern, use_regex, compiles, r)
                &&& r == Ok::<SearchChanged, PatternError>(SearchChanged::Changed) && old(self).search.active
                    && final(self).search.pattern.unwrap().raw@.len() > 0 ==> final(self).search.spec_matches()
                    == if all_rows_held(old(self).container) {
                    search::hits(
                        old(self).container.keys(),
                        old(self).container.data(),
                        body_matches@,
                        old(self).container.keys().len(),
                    )
                } else {
                    Seq::<Match>::empty()
                }
                &&& r == Ok::<SearchChanged, PatternError>(SearchChanged::Changed) && !(old(self).search.active
                    && final(self).search.pattern.unwrap().raw@.len() > 0) ==> final(self).search.spec_matches().len() == 0
                &&& r == Ok::<SearchChanged, PatternError>(SearchChanged::Changed) && old(self).search.active
                    && final(self).search.pattern.unwrap().raw@.len() > 0 ==> final(self).container.data()
                    == search::searched(
                        old(self).container.keys(),
                        old(self).container.data(),
                        body_matches@,
                        search::first_gap(old(self).container.keys(), old(self).container.data()) as nat,
                    ) && final(self).model@ == after_calls(
                        old(self).model@,
                        old(self).model.target(),
                        search::search_calls(
                            old(self).container.keys(),
                            old(self).container.data(),
                            body_matches@,
                            search::first_gap(old(self).container.keys(), old(self).container.data()) as nat,
                        ),
                    )
                &&& !(r == Ok::<SearchChanged, PatternError>(SearchChanged::Changed) && old(self).search.active
                    && final(self).search.pattern.unwrap().raw@.len() > 0) ==> final(self).container.data()
                    == old(self).container.data() && final(self).model@ == old(self).model@
                &&& r != Ok::<SearchChanged, PatternError>(SearchChanged::Changed) ==> final(self).search.spec_matches()
                    == old(self).search.spec_matches() && final(self).search.index == old(self).search.index
                &&& r == Ok::<SearchChanged, PatternError>(SearchChanged::Changed) ==> raised_all(
                    old(self).emit@,
                    final(self).emit@,
                    seq![MessagesSignal::SearchRegexChanged] + (if old(self).search.active
                        && final(self).search.pattern.unwrap().raw@.len() > 0 && all_rows_held(old(self).container) {
                        seq![MessagesSignal::SearchNumMatchesChanged]
                    } else {
                        Seq::<MessagesSignal>::empty()
                    }) + matches_set_signals(),
                )
                &&& r != Ok::<SearchChanged, PatternError>(SearchChanged::Changed) ==> final(self).emit@
                    == old(self).emit@
            },
            final(self).model.target() == old(self).model.target(),
    {
        let ghost c0 = self.container;
        let ghost e0 = self.emit@;
        let r = self.search.set_regex(use_regex, compiles, &mut self.emit);
        let ghost e1 = self.emit@;
        let changed = match r {
            Ok(c) => c.changed(),
            Err(_) => false,
        };
        if changed {
            proof {
                lemma_raised_one(e0, e1, MessagesSignal::SearchRegexChanged);
            }
            let found = apply_search(
                &mut self.container,
                &self.search,
                body_matches,
                &mut self.model,
                &mut self.emit,
            );
            let ghost e2 = self.emit@;
            let ghost mid = if self.search.active && self.search.pattern.unwrap().raw@.len() > 0 && all_rows_held(c0) {
                seq![MessagesSignal::SearchNumMatchesChanged]
            } else {
                Seq::<MessagesSignal>::empty()
            };
            proof {
                if self.search.active && self.search.pattern.unwrap().raw@.len() > 0 && all_rows_held(c0) {
                    lemma_raised_one(e1, e2, MessagesSignal::SearchNumMatchesChanged);
                } else {
                    lemma_raised_none(e1);
                }
                lemma_raised_concat(e0, e1, e2, seq![MessagesSignal::SearchRegexChanged], mid);
            }
            let matches = match found {
                Some(m) => m,
                None => Vec::new(),
            };
            self.search.set_matches(matches, &mut self.emit);
            proof {
                lemma_raised_concat(e0, e2, self.emit@, seq![MessagesSignal::SearchRegexChanged] + mid, matches_set_signals());
            }
        }
    }
}

/// Dropping message `id` from data whose statuses alone changed from `d0`, and
/// marking as dangling its replies `reps`, leaves each other message with its
/// data from `d0` but its status, and its reply id dangling when it is one of
/// the replies.
proof fn lemma_replies_dangle(
    d0: Map<MsgId, MsgData>,
    d1: Map<MsgId, MsgData>,
    d3: Map<MsgId, MsgData>,
    id: MsgId,
    reps: Seq<MsgId>,
)
    requires
        search::only_status_changed(d0, d1),
        d1.contains_key(id),
        reps == d1[id].replies@,
        d3 == container::dangled(d1.remove(id), reps),
    ensures
        reps == d0[id].replies@,
        forall|k: MsgId|
            #[trigger] d3.contains_key(k) ==> d3[k] == (MsgData {
                match_status: d3[k].match_status,
                op: if reps.contains(k) {
                    ReplyId::Dangling
                } else {
                    d0[k].op
                },
                ..d0[k]
            }),
{
    assert(d1[id] == (MsgData { match_status: d1[id].match_status, ..d0[id] }));
    assert forall|k: MsgId| #[trigger] d3.contains_key(k) implies d3[k] == (MsgData {
        match_status: d3[k].match_status,
        op: if reps.contains(k) {
            ReplyId::Dangling
        } else {
            d0[k].op
        },
        ..d0[k]
    }) by {
        assert(d1.contains_key(k));
        assert(d1[k] == (MsgData { match_status: d1[k].match_status, ..d0[k] }));
    }
}

/// Search statuses changing, a message leaving, and replies becoming dangling
/// keep every remaining message's data as `data_kept` allows.
proof fn lemma_kept_through(
    d0: Map<MsgId, MsgData>,
    d1: Map<MsgId, MsgData>,
    d2: Map<MsgId, MsgData>,
    d3: Map<MsgId, MsgData>,
)
    requires
        search::only_status_changed(d0, d1),
        forall|k: MsgId| #[trigger] d2.contains_key(k) ==> d1.contains_key(k) && d2[k] == d1[k],
        d3.dom() == d2.dom(),
        forall|k: MsgId|
            #[trigger] d3.contains_key(k) ==> d3[k] == d2[k] || d3[k] == (MsgData { op: ReplyId::Dangling, ..d2[k] }),
    ensures
        forall|k: MsgId| #[trigger] d3.contains_key(k) ==> data_kept(d0[k], d3[k]),
{
    assert forall|k: MsgId| #[trigger] d3.contains_key(k) implies data_kept(d0[k], d3[k]) by {
        assert(d2.contains_key(k));
        assert(d1.contains_key(k));
        assert(d1[k] == (MsgData { match_status: d1[k].match_status, ..d0[k] }));
    }
}

/// What taking the message at `ix` (with id `msg_id`) out of `before` did,
/// giving `after`: the key leaves, the data of its id goes, the replies to it
/// become dangling, it leaves the search matches, and the view hears of the
/// removed row, the rows whose flurry edges change and the redrawn replies.
/// `body_matches` is what the pattern engine says of the message's body.
pub open spec fn message_removed(before: Messages, after: Messages, msg_id: MsgId, ix: usize, body_matches: bool) -> bool {
    &&& ix < before.container.keys().len() ==> after.container.keys()
        == before.container.keys().remove(ix as int)
    &&& ix < before.container.keys().len() ==> after.container.data().dom()
        == before.container.data().dom().remove(before.container.keys()[ix as int].msg_id)
    &&& ix >= before.container.keys().len() ==> after.container.keys()
        == before.container.keys()
    &&& after.conversation_id == before.conversation_id
    &&& before.container.clean() ==> after.container.clean()
    &&& forall|k: MsgId|
        #[trigger] after.container.data().contains_key(k) ==> data_kept(
            before.container.data()[k],
            after.container.data()[k],
        )
    &&& ix < before.container.keys().len() && before.container.data().contains_key(before.container.keys()[ix as int].msg_id) ==> forall|k: MsgId|
        #[trigger] after.container.data().contains_key(k) ==> after.container.data()[k] == (MsgData {
            match_status: after.container.data()[k].match_status,
            op: if before.container.data_at(ix as int).replies@.contains(k) {
                ReplyId::Dangling
            } else {
                before.container.data()[k].op
            },
            ..before.container.data()[k]
        })
    &&& !search::search_hit(before.search, before.container, msg_id, body_matches)
        ==> after.search.spec_matches() == before.search.spec_matches()
    &&& forall|p: int|
        search::search_hit(before.search, before.container, msg_id, body_matches)
            && #[trigger] search::first_with_id(before.search.spec_matches(), msg_id, p)
            ==> after.search.spec_matches() == before.search.spec_matches().remove(p)
    &&& after.model.target() == before.model.target()
    &&& ix < before.container.keys().len() && before.container.data().contains_key(before.container.keys()[ix as int].msg_id) ==> exists|pre: Seq<ModelCall>, dang: Seq<ModelCall>|
        pre.len() <= 1 && container::rows_redrawn(
            after.container.keys(),
            before.container.data(),
            container::newly_dangling(
                before.container.data().remove(before.container.keys()[ix as int].msg_id),
                before.container.data_at(ix as int).replies@,
            ),
            dang,
        ) && #[trigger] after_calls(
            after_calls(
                after_calls(before.model@, before.model.target(), pre),
                before.model.target(),
                rows_removed(ix),
            ),
            before.model.target(),
            dang + removal_neighbours(before.container, after.container, ix),
        ) == after.model@
    &&& ix < before.container.keys().len() && !before.container.data().contains_key(before.container.keys()[ix as int].msg_id) ==> exists|pre: Seq<ModelCall>|
        pre.len() <= 1 && #[trigger] after_calls(
            after_calls(
                after_calls(before.model@, before.model.target(), pre),
                before.model.target(),
                rows_removed(ix),
            ),
            before.model.target(),
            removal_neighbours(before.container, after.container, ix),
        ) == after.model@
    &&& exists|pre: Seq<ModelCall>, rest: Seq<ModelCall>|
        pre.len() <= 1 && #[trigger] after_calls(
            after_calls(
                after_calls(before.model@, before.model.target(), pre),
                before.model.target(),
                rows_removed(ix),
            ),
            before.model.target(),
            rest,
        ) == after.model@
    &&& exists|sg: Seq<MessagesSignal>|
        search::search_only(sg) && #[trigger] raised_all(
            before.emit@,
            after.emit@,
            sg + removal_tail(before.container.keys().len(), ix),
        )
}

impl Messages {
    /// Takes the message at `ix` (with id `msg_id`) out of the list: it leaves
    /// the search matches and the reply being composed, its replies become
    /// dangling, and the view hears of the rows whose flurry edges change.
    /// `body_matches` is what the pattern engine says of the message's body.
    #[verifier::rlimit(90)]
    #[verifier::spinoff_prover]
    pub fn remove_helper(&mut self, msg_id: MsgId, ix: usize, body_matches: bool)
        requires
            old(self).wf(),
            ix < usize::MAX,
        ensures
            final(self).wf(),
            message_removed(*old(self), *final(self), msg_id, ix, body_matches),
    {
        let ghost m0 = self.model@;
        let ghost t = self.model.target();
        let ghost e0 = self.emit@;
        let ghost c0 = self.container;
        let _ = self.search.try_remove_match(
            &msg_id,
            body_matches,
            &mut self.container,
            &mut self.emit,
            &mut self.model,
        );
        let ghost e1 = self.emit@;
        let ghost m1 = self.model@;
        let ghost c1 = self.container;
        let ghost sg = choose|s: Seq<MessagesSignal>| search::search_only(s) && #[trigger] raised_all(e0, e1, s);
        let ghost pre = choose|calls: Seq<ModelCall>| calls.len() <= 1 && #[trigger] after_calls(m0, t, calls) == m1;
        let _ = self.builder.try_clear_reply(&msg_id);
        let len = self.container.len();
        let prev_state = if ix > 0 {
            (self.is_tail_(ix - 1), self.is_head_(ix - 1))
        } else {
            (None, None)
        };
        let succ_state = (self.is_tail_(ix), self.is_head_(ix));
        self.model.begin_remove_rows(ix, ix);
        let data = self.container.remove(ix);
        self.model.end_remove_rows();
        proof {
            lemma_calls_none(m1, t);
            lemma_calls_push(m1, t, Seq::<ModelCall>::empty(), ModelCall::BeginRemoveRows { first: ix, last: ix });
            lemma_calls_push(
                m1,
                t,
                Seq::<ModelCall>::empty().push(ModelCall::BeginRemoveRows { first: ix, last: ix }),
                ModelCall::EndRemoveRows,
            );
            assert(Seq::<ModelCall>::empty().push(ModelCall::BeginRemoveRows { first: ix, last: ix }).push(
                ModelCall::EndRemoveRows,
            ) =~= rows_removed(ix));
        }
        let ghost m2 = self.model@;
        let ghost mut rest: Seq<ModelCall> = Seq::empty();
        let ghost mut dang: Seq<ModelCall> = Seq::empty();
        proof {
            lemma_calls_none(m2, t);
        }
        match data {
            Some(d) => {
                let ghost c2 = self.container.data();
                let ghost reps = d.replies@;
                let dr = self.container.set_dangling(d.replies, &mut self.model);
                proof {
                    assert(self.container.data().dom() =~= c2.dom());
                    lemma_kept_through(c0.data(), c1.data(), c2, self.container.data());
                }
                if dr.is_some() {
                  proof {
                    rest = choose|calls: Seq<ModelCall>|
                        container::rows_redrawn(
                            self.container.keys(),
                            c2,
                            container::newly_dangling(c2, reps),
                            calls,
                        ) && #[trigger] after_calls(m2, t, calls) == self.model@;
                    assert(c1.data().contains_key(c0.keys()[ix as int].msg_id));
                    lemma_replies_dangle(c0.data(), c1.data(), self.container.data(), c0.keys()[ix as int].msg_id, reps);
                    let base = c0.data().remove(c0.keys()[ix as int].msg_id);
                    assert forall|k: MsgId| #[trigger] c2.contains_key(k) == base.contains_key(k) by {
                        if base.contains_key(k) {
                            assert(c1.data().contains_key(k));
                        }
                    }
                    assert forall|k: MsgId| #[trigger] c2.contains_key(k) implies c2[k].op == base[k].op by {
                        assert(c1.data()[k] == (MsgData { match_status: c1.data()[k].match_status, ..c0.data()[k] }));
                    }
                    container::lemma_newly_dangling_same(c2, base, reps);
                    container::lemma_newly_dangling_held(c2, reps);
                    let ch = container::newly_dangling(c2, reps);
                    assert forall|j: int| 0 <= j < ch.len() implies #[trigger] c2[ch[j]].time == c0.data()[ch[j]].time by {
                        assert(c2.contains_key(ch[j]));
                        assert(c1.data()[ch[j]] == (MsgData { match_status: c1.data()[ch[j]].match_status, ..c0.data()[ch[j]] }));
                    }
                    container::lemma_rows_redrawn_same(self.container.keys(), c2, c0.data(), ch, rest);
                    dang = rest;
                  }
                }
            },
            None => {
                proof {
                    lemma_kept_through(c0.data(), c1.data(), self.container.data(), self.container.data());
                }
            },
        }
        let ghost d_final = self.container.data();
        if ix > 0 {
            let prev_head = self.is_head_(ix - 1);
            if !same_flags(prev_state, (prev_head, self.is_tail_(ix - 1))) {
                proof {
                    lemma_calls_push(m2, t, rest, ModelCall::DataChanged { first: (ix - 1) as usize, last: (ix - 1) as usize });
                }
                self.entry_changed(ix - 1);
                proof {
                    if ix - 1 < self.container.keys().len() {
                        rest = rest.push(ModelCall::DataChanged { first: (ix - 1) as usize, last: (ix - 1) as usize });
                    }
                }
            }
            if ix + 1 < self.container.len() && !same_flags(
                succ_state,
                (prev_head, self.is_tail_(ix + 1)),
            ) {
                proof {
                    lemma_calls_push(m2, t, rest, ModelCall::DataChanged { first: (ix + 1) as usize, last: (ix + 1) as usize });
                }
                self.entry_changed(ix + 1);
                proof {
                    rest = rest.push(ModelCall::DataChanged { first: (ix + 1) as usize, last: (ix + 1) as usize });
                }
            }
        }
        let ghost e2 = self.emit@;
        if len == 1 {
            self.emit.is_empty_changed();
        }
        let ghost e3 = self.emit@;
        if ix + 1 == len {
            self.emit_last_changed();
        }
        proof {
            let a = if len == 1 {
                seq![MessagesSignal::IsEmptyChanged]
            } else {
                Seq::<MessagesSignal>::empty()
            };
            let b = if ix + 1 == len {
                last_changed_signals()
            } else {
                Seq::<MessagesSignal>::empty()
            };
            assert(e2 == e1);
            if len == 1 {
                lemma_raised_one(e2, e3, MessagesSignal::IsEmptyChanged);
            } else {
                lemma_raised_none(e2);
            }
            if ix + 1 != len {
                lemma_raised_none(e3);
            }
            lemma_raised_concat(e0, e1, e3, sg, a);
            lemma_raised_concat(e0, e3, self.emit@, sg + a, b);
            assert(sg + a + b =~= sg + removal_tail(len as nat, ix));
            assert(self.container.data() == d_final);
            assert(after_calls(after_calls(after_calls(m0, t, pre), t, rows_removed(ix)), t, rest) == self.model@);
            if ix < c0.keys().len() {
                lemma_status_keeps_flurries(c0, c1);
                assert(rest =~= dang + removal_neighbours(c0, self.container, ix));
                if !c0.data().contains_key(c0.keys()[ix as int].msg_id) {
                    assert(dang + removal_neighbours(c0, self.container, ix) =~= removal_neighbours(c0, self.container, ix));
                }
            }
        }
    }

    /// Puts a stored or composed message into the list at its place in time
    /// order, adds it to an active search when it matches (`body_matches` being
    /// what the pattern engine says of its body), and tells the view. `Err` when
    /// no conversation is set or the message replies to one the list lacks;
    /// `Ok(None)`, with nothing changed, when a message with the same insertion
    /// time is there already before the last one; `Ok(Some(cid))` when it went
    /// in, `cid` being the conversation with new activity. A message whose id
    /// the list holds goes in as well, its data replacing the held data.
    #[verifier::rlimit(60)]
    #[verifier::spinoff_prover]
    pub fn insert_helper(&mut self, msg: Msg, save_status: SaveStatus, body_matches: bool) -> (r:
        Result<Option<ConversationId>, NotFound>)
        requires
            old(self).wf(),
            old(self).search.spec_matches().len() < usize::MAX,
            old(self).search.index matches Some(i) ==> i < usize::MAX,
            old(self).container.keys().len() < usize::MAX,
        ensures
            insert_effect(*old(self), *final(self), msg, save_status, body_matches, r),
            final(self).wf(),
            old(self).container.clean() && !old(self).container.data().contains_key(msg.message_id)
                ==> final(self).container.clean(),
    {
        let (message, data) = split_msg(msg, save_status);
        let cid = match self.conversation_id {
            Some(cid) => cid,
            None => {
                return Err(NotFound);
            },
        };
        let msg_id = message.msg_id;
        let last_time = match self.container.last() {
            Some(last) => last.insertion_time,
            None => message.insertion_time,
        };
        let ix = if last_time <= message.insertion_time {
            self.container.len()
        } else {
            match self.container.binary_search(&message) {
                Ok(_) => {
                    return Ok(None);
                },
                Err(ix) => {
                    proof {
                        let keys = self.container.keys();
                        assert(belongs_at(keys, ix, message.insertion_time));
                        assert(!(exists|j: int| 0 <= j < keys.len() && keys[j].insertion_time == message.insertion_time));
                        let c = choose|i: usize| i <= keys.len() && #[trigger] belongs_at(keys, i, message.insertion_time);
                        if c < ix {
                            assert(keys[c as int].insertion_time < message.insertion_time);
                            assert(keys[c as int].insertion_time > message.insertion_time);
                        } else if c > ix {
                            assert(keys[ix as int].insertion_time < message.insertion_time);
                            assert(keys[ix as int].insertion_time > message.insertion_time);
                        }
                    }
                    ix
                },
            }
        };
        let prev_state = if ix > 0 {
            self.is_tail_(ix - 1)
        } else {
            None
        };
        let succ_state = self.is_tail_(ix);
        proof {
            let keys = self.container.keys();
            assert(fits_at(keys, ix as int, message.insertion_time));
        }
        match self.container.insert(ix, message, data) {
            Some(()) => {},
            None => {
                return Err(NotFound);
            },
        }
        let ghost after_insert = self.container;
        let ghost e0 = self.emit@;
        let ghost m0 = self.model@;
        let ghost t = self.model.target();
        let ghost be = seq![ModelCall::BeginInsertRows { first: ix, last: ix }, ModelCall::EndInsertRows];
        self.model.begin_insert_rows(ix, ix);
        self.model.end_insert_rows();
        proof {
            lemma_calls_none(m0, t);
            lemma_calls_push(m0, t, Seq::<ModelCall>::empty(), ModelCall::BeginInsertRows { first: ix, last: ix });
            lemma_calls_push(
                m0,
                t,
                Seq::<ModelCall>::empty().push(ModelCall::BeginInsertRows { first: ix, last: ix }),
                ModelCall::EndInsertRows,
            );
            assert(Seq::<ModelCall>::empty().push(ModelCall::BeginInsertRows { first: ix, last: ix }).push(
                ModelCall::EndInsertRows,
            ) =~= be);
            assert(be + Seq::<ModelCall>::empty() =~= be);
        }
        let ghost mut rest: Seq<ModelCall> = Seq::empty();
        let ghost m1 = self.model@;
        proof {
            assert(self.container.keys()[ix as int].insertion_time == self.container.data()[msg_id].time.insertion);
        }
        let _ = self.search.try_insert_match(
            msg_id,
            ix,
            body_matches,
            &mut self.container,
            &mut self.emit,
            &mut self.model,
        );
        let ghost joins = search::search_hit(old(self).search, after_insert, msg_id, body_matches)
            && search::joins_matches(old(self).search.spec_matches(), after_insert.data()[msg_id].time.insertion);
        let ghost xc = if joins {
            join_calls(old(self).search, ix)
        } else {
            Seq::<ModelCall>::empty()
        };
        proof {
            assert(self.container.data().dom() =~= after_insert.data().dom());
            if !joins {
                lemma_calls_none(m1, t);
            }
            assert(after_calls(m1, t, xc) == self.model@);
            lemma_calls_concat(m0, t, be, xc);
            rest = xc;
        }
        let ghost d_final = self.container.data();
        let ghost e1 = self.emit@;
        let ghost sg = choose|sg: Seq<MessagesSignal>| sg.len() <= 1 && search::search_only(sg) && #[trigger] raised_all(e0, e1, sg);
        if ix + 1 == self.container.len() {
            self.emit_last_changed();
        }
        let ghost e2 = self.emit@;
        if self.container.len() == 1 {
            self.emit.is_empty_changed();
        }
        proof {
            let n = old(self).container.keys().len();
            let a = if ix == n {
                last_changed_signals()
            } else {
                Seq::<MessagesSignal>::empty()
            };
            let b = if n == 0 {
                seq![MessagesSignal::IsEmptyChanged]
            } else {
                Seq::<MessagesSignal>::empty()
            };
            if ix != n {
                lemma_raised_none(e1);
            }
            if n == 0 {
                lemma_raised_one(e2, self.emit@, MessagesSignal::IsEmptyChanged);
            } else {
                lemma_raised_none(e2);
            }
            lemma_raised_concat(e0, e1, e2, sg, a);
            lemma_raised_concat(e0, e2, self.emit@, sg + a, b);
            assert(sg + a + b =~= sg + insertion_tail(n, ix));
        }
        if ix > 0 && !same_flag(prev_state, self.is_tail_(ix - 1)) {
            proof {
                lemma_calls_push(m0, t, be + rest, ModelCall::DataChanged { first: (ix - 1) as usize, last: (ix - 1) as usize });
                assert((be + rest).push(ModelCall::DataChanged { first: (ix - 1) as usize, last: (ix - 1) as usize })
                    =~= be + rest.push(ModelCall::DataChanged { first: (ix - 1) as usize, last: (ix - 1) as usize }));
            }
            self.entry_changed(ix - 1);
            proof {
                if ix - 1 < self.container.keys().len() {
                    rest = rest.push(ModelCall::DataChanged { first: (ix - 1) as usize, last: (ix - 1) as usize });
                }
            }
        }
        if ix + 1 < self.container.len() && !same_flag(succ_state, self.is_tail_(ix + 1)) {
            proof {
                lemma_calls_push(m0, t, be + rest, ModelCall::DataChanged { first: (ix + 1) as usize, last: (ix + 1) as usize });
                assert((be + rest).push(ModelCall::DataChanged { first: (ix + 1) as usize, last: (ix + 1) as usize })
                    =~= be + rest.push(ModelCall::DataChanged { first: (ix + 1) as usize, last: (ix + 1) as usize }));
            }
            self.entry_changed(ix + 1);
            proof {
                rest = rest.push(ModelCall::DataChanged { first: (ix + 1) as usize, last: (ix + 1) as usize });
            }
        }
        proof {
            assert(self.container.data() == d_final);
            assert(rest =~= xc + neighbours_redrawn(old(self).container, self.container, ix));
            assert(be == rows_inserted(ix));
            lemma_calls_concat(m0, t, be, rest);
            let place = insert_place(old(self).container.keys(), msg.time.insertion);
            assert(place == Some(ix as int));
            assert(rows_inserted(place.unwrap() as usize) == rows_inserted(ix));
            assert(insertion_tail(old(self).container.keys().len(), place.unwrap() as usize) == insertion_tail(
                old(self).container.keys().len(),
                ix,
            ));
        }
        Ok(Some(cid))
    }

    /// Removes the expired messages with ids `mids` that the list holds, each
    /// found by a search on its insertion time, which takes out the last key
    /// with that time (another message's, when several share it);
    /// `body_matches[i]` is what the pattern engine says of the body of message
    /// `mids[i]`.
    pub fn handle_expiration(&mut self, mids: Vec<MsgId>, body_matches: &Vec<bool>)
        requires
            old(self).wf(),
            body_matches@.len() == mids@.len(),
        ensures
            final(self).wf(),
            final(self).conversation_id == old(self).conversation_id,
            final(self).container.keys().len() <= old(self).container.keys().len(),
            forall|k: MsgId|
                #[trigger] final(self).container.data().contains_key(k) ==> old(self).container.data().contains_key(k),
            old(self).container.clean() ==> final(self).container.clean(),
            forall|j: int|
                0 <= j < mids@.len() && old(self).container.data().contains_key(mids@[j]) && time_unique(
                    old(self).container.keys(),
                    old(self).container.data()[mids@[j]].time.insertion,
                ) ==> !final(self).container.data().contains_key(#[trigger] mids@[j]),
            kept_in_order(old(self).container.keys(), final(self).container.keys()),
            forall|k: MsgId|
                #[trigger] final(self).container.data().contains_key(k) ==> data_kept(
                    old(self).container.data()[k],
                    final(self).container.data()[k],
                ),
            expiry_times_unique(old(self).container.keys(), old(self).container.data(), mids@) ==> forall|k: MsgId|
                old(self).container.data().contains_key(k) && !mids@.contains(k)
                    ==> #[trigger] final(self).container.data().contains_key(k),
            final(self).container.keys() == expired(old(self).container.keys(), old(self).container.data(), mids@, mids@.len()).0,
            final(self).container.data().dom() == expired(old(self).container.keys(), old(self).container.data(), mids@, mids@.len()).1,
            exists|states: Seq<Messages>|
                states.len() == mids@.len() + 1 && states[0] == *old(self) && states.last() == *final(self)
                    && #[trigger] expiry_chain(states, mids@, body_matches@, mids@.len()),
    {
        let ghost mut states: Seq<Messages> = seq![*self];
        let ghost k0 = self.container.keys();
        let ghost d0 = self.container.data();
        let ghost clean0 = self.container.clean();
        let ghost mut origin: Seq<int> = Seq::new(k0.len(), |x: int| x);
        let mut i: usize = 0;
        while i < mids.len()
            invariant
                self.wf(),
                k0 == old(self).container.keys(),
                d0 == old(self).container.data(),
                clean0 == container_wf(k0, d0),
                clean0 ==> self.container.clean(),
                i <= mids@.len(),
                body_matches@.len() == mids@.len(),
                self.conversation_id == old(self).conversation_id,
                self.container.keys().len() <= k0.len(),
                forall|k: MsgId| #[trigger] self.container.data().contains_key(k) ==> d0.contains_key(k),
                origin.len() == self.container.keys().len(),
                forall|x: int|
                    0 <= x < origin.len() ==> 0 <= #[trigger] origin[x] < k0.len() && self.container.keys()[x]
                        == k0[origin[x]],
                forall|j: int|
                    0 <= j < i && d0.contains_key(mids@[j]) && time_unique(k0, d0[mids@[j]].time.insertion)
                        ==> !self.container.data().contains_key(#[trigger] mids@[j]),
                forall|x: int, y: int| 0 <= x < y < origin.len() ==> #[trigger] origin[x] < #[trigger] origin[y],
                forall|k: MsgId| #[trigger] self.container.data().contains_key(k) ==> data_kept(d0[k], self.container.data()[k]),
                expiry_times_unique(k0, d0, mids@) ==> forall|k: MsgId|
                    d0.contains_key(k) && !mids@.take(i as int).contains(k) ==> #[trigger] self.container.data().contains_key(k),
                self.container.keys() == expired(k0, d0, mids@, i as nat).0,
                self.container.data().dom() == expired(k0, d0, mids@, i as nat).1,
                states.len() == i + 1,
                states[0] == *old(self),
                states[i as int] == *self,
                expiry_chain(states, mids@, body_matches@, i as nat),
            decreases mids@.len() - i,
        {
            let ghost before_all = *self;
            let mid = mids[i];
            let n = self.container.len();
            match self.container.index_by_id(mid) {
                Some(ix) => {
                    assert(ix < n);
                    let ghost before = self.container;
                    proof {
                        let keys = before.keys();
                        before.lemma_held_is_keyed(mid);
                        let t = before.data()[mid].time.insertion;
                        let k = choose|k: int| 0 <= k < keys.len() && #[trigger] keys[k].msg_id == mid
                            && keys[k].insertion_time == t;
                        assert(data_kept(d0[mid], before.data()[mid]));
                        if time_unique(k0, d0[mid].time.insertion) {
                            lemma_unique_time_finds(k0, keys, origin, mid, t, ix, k);
                        }
                    }
                    proof {
                        let t = d0[mid].time.insertion;
                        assert(before.data()[mid].time.insertion == t);
                        let cx = choose|c: usize| #[trigger] found_at(before.keys(), c, t);
                        lemma_found_at_unique(before.keys(), cx, ix, t);
                        assert(before.data().dom().contains(mid));
                    }
                    self.remove_helper(mid, ix, body_matches[i]);
                    proof {
                        assert(found_at(before_all.container.keys(), ix, before_all.container.data()[mid].time.insertion));
                        assert(expiry_step(before_all, *self, mid, body_matches@[i as int]));
                        assert(self.container.keys() == expired(k0, d0, mids@, (i + 1) as nat).0);
                        assert(self.container.data().dom() =~= expired(k0, d0, mids@, (i + 1) as nat).1);
                        let d = before.data();
                        assert forall|k: MsgId| #[trigger] self.container.data().contains_key(k) implies data_kept(
                            d0[k],
                            self.container.data()[k],
                        ) by {
                            assert(d.contains_key(k));
                            assert(data_kept(d0[k], d[k]));
                        }
                        if expiry_times_unique(k0, d0, mids@) {
                            assert(d0.contains_key(mids@[i as int]));
                            assert(time_unique(k0, d0[mid].time.insertion));
                            assert(before.keys()[ix as int].msg_id == mid);
                            assert forall|k: MsgId|
                                d0.contains_key(k) && !mids@.take(i + 1).contains(k) implies #[trigger] self.container.data().contains_key(k) by {
                                assert(mids@.take(i + 1) =~= mids@.take(i as int).push(mid));
                                assert(!mids@.take(i as int).contains(k)) by {
                                    if mids@.take(i as int).contains(k) {
                                        let w = choose|w: int| 0 <= w < i && mids@.take(i as int)[w] == k;
                                        assert(mids@.take(i + 1)[w] == k);
                                    }
                                }
                                assert(k != mid) by {
                                    assert(mids@.take(i + 1)[i as int] == mid);
                                }
                            }
                        }
                        assert(self.container.data().dom() == d.dom().remove(before.keys()[ix as int].msg_id));
                        let o2 = origin.remove(ix as int);
                        assert forall|x: int| 0 <= x < o2.len() implies 0 <= #[trigger] o2[x] < k0.len()
                            && self.container.keys()[x] == k0[o2[x]] by {
                            let y = if x < ix { x } else { x + 1 };
                            assert(self.container.keys()[x] == before.keys()[y]);
                            assert(o2[x] == origin[y]);
                        }
                        assert forall|x: int, y: int| 0 <= x < y < o2.len() implies #[trigger] o2[x] < #[trigger] o2[y] by {
                            let xx = if x < ix { x } else { x + 1 };
                            let yy = if y < ix { y } else { y + 1 };
                            assert(o2[x] == origin[xx]);
                            assert(o2[y] == origin[yy]);
                        }
                        origin = o2;
                        assert forall|j: int|
                            0 <= j < i + 1 && d0.contains_key(mids@[j]) && time_unique(k0, d0[mids@[j]].time.insertion)
                                implies !self.container.data().contains_key(#[trigger] mids@[j]) by {
                            if j < i {
                                assert(!before.data().contains_key(mids@[j]));
                            } else {
                                assert(mids@[j] == mid);
                                assert(before.keys()[ix as int].msg_id == mid);
                            }
                        }
                    }
                },
                None => {
                    proof {
                        assert(!self.container.data().dom().contains(mid));
                        assert(expired(k0, d0, mids@, (i + 1) as nat) == expired(k0, d0, mids@, i as nat));
                        assert forall|j: int|
                            0 <= j < i + 1 && d0.contains_key(mids@[j]) && time_unique(k0, d0[mids@[j]].time.insertion)
                                implies !self.container.data().contains_key(#[trigger] mids@[j]) by {
                            if j == i {
                                assert(mids@[j] == mid);
                            }
                        }
                        if expiry_times_unique(k0, d0, mids@) {
                            assert forall|k: MsgId|
                                d0.contains_key(k) && !mids@.take(i + 1).contains(k) implies #[trigger] self.container.data().contains_key(k) by {
                                assert(mids@.take(i + 1) =~= mids@.take(i as int).push(mid));
                                assert(!mids@.take(i as int).contains(k)) by {
                                    if mids@.take(i as int).contains(k) {
                                        let w = choose|w: int| 0 <= w < i && mids@.take(i as int)[w] == k;
                                        assert(mids@.take(i + 1)[w] == k);
                                    }
                                }
                            }
                        }
                    }
                },
            }
            proof {
                assert(expiry_step(before_all, *self, mid, body_matches@[i as int]));
                lemma_chain_push(states, *self, mids@, body_matches@, i as nat);
                states = states.push(*self);
            }
            i = i + 1;
        }
        proof {
            assert(states.last() == *self);
            assert(mids@.take(mids@.len() as int) =~= mids@);
            assert(kept_in_order(k0, self.container.keys())) by {
                assert(origin.len() == self.container.keys().len());
            }
        }
    }
}

/// What taking out the expired message `mid` did to `before`, giving `after`:
/// when the list holds it, the key that a search by its insertion time finds
/// (the last key with that time) is removed as `message_removed` says;
/// otherwise nothing changes.
pub open spec fn expiry_step(before: Messages, after: Messages, mid: MsgId, body_matches: bool) -> bool {
    if before.container.data().contains_key(mid) {
        exists|ix: usize|
            #[trigger] found_at(before.container.keys(), ix, before.container.data()[mid].time.insertion)
                && message_removed(before, after, mid, ix, body_matches)
    } else {
        after == before
    }
}

/// `states` are the list before and after each of the first `n` expired
/// messages `mids` was taken out, in order.
pub open spec fn expiry_chain(states: Seq<Messages>, mids: Seq<MsgId>, body_matches: Seq<bool>, n: nat) -> bool
    decreases n,
{
    if n == 0 {
        true
    } else {
        expiry_chain(states, mids, body_matches, (n - 1) as nat) && expiry_step(
            states[n - 1],
            states[n as int],
            mids[n - 1],
            body_matches[n - 1],
        )
    }
}

/// A state added at the end leaves the earlier steps of the chain as they were.
proof fn lemma_chain_push(states: Seq<Messages>, x: Messages, mids: Seq<MsgId>, body_matches: Seq<bool>, n: nat)
    requires
        n < states.len(),
    ensures
        expiry_chain(states.push(x), mids, body_matches, n) == expiry_chain(states, mids, body_matches, n),
    decreases n,
{
    if n > 0 {
        lemma_chain_push(states, x, mids, body_matches, (n - 1) as nat);
        assert(states.push(x)[n - 1] == states[n - 1]);
        assert(states.push(x)[n as int] == states[n as int]);
    }
}

/// The keys, and the ids held, after the first `n` expired messages `mids` were
/// taken out of the keys `k0` with data `d0`: an expired message that is still
/// held takes out the last key with its insertion time, and the data of that
/// key's id; one that is not held changes nothing.
pub open spec fn expired(k0: Seq<Message>, d0: Map<MsgId, MsgData>, mids: Seq<MsgId>, n: nat) -> (Seq<Message>, Set<MsgId>)
    decreases n,
{
    if n == 0 || n > mids.len() {
        (k0, d0.dom())
    } else {
        let (keys, held) = expired(k0, d0, mids, (n - 1) as nat);
        let mid = mids[n - 1];
        if held.contains(mid) {
            let ix = choose|i: usize| #[trigger] found_at(keys, i, d0[mid].time.insertion);
            (keys.remove(ix as int), held.remove(keys[ix as int].msg_id))
        } else {
            (keys, held)
        }
    }
}

/// The last key with a given insertion time is one index.
proof fn lemma_found_at_unique(s: Seq<Message>, i: usize, j: usize, t: Time)
    requires
        found_at(s, i, t),
        found_at(s, j, t),
    ensures
        i == j,
{
    if i < j {
        assert(s[j as int].insertion_time == t);
    } else if j < i {
        assert(s[i as int].insertion_time == t);
    }
}

/// No two keys of `keys` have insertion time `t`.
pub open spec fn time_unique(keys: Seq<Message>, t: Time) -> bool {
    forall|a: int, b: int| 0 <= a < b < keys.len() ==> !(keys[a].insertion_time == t && keys[b].insertion_time == t)
}

/// Every expired message `mids` that the list holds has an insertion time that
/// no other message of the list shares, so a search by time finds it alone.
pub open spec fn expiry_times_unique(keys: Seq<Message>, data: Map<MsgId, MsgData>, mids: Seq<MsgId>) -> bool {
    forall|j: int| 0 <= j < mids.len() && #[trigger] data.contains_key(mids[j]) ==> time_unique(keys, data[mids[j]].time.insertion)
}

/// `after` is `before` with some keys taken out and the rest in the same order.
pub open spec fn kept_in_order(before: Seq<Message>, after: Seq<Message>) -> bool {
    exists|origin: Seq<int>|
        #![trigger origin.len()]
        origin.len() == after.len() && (forall|x: int|
            0 <= x < origin.len() ==> 0 <= #[trigger] origin[x] < before.len() && after[x] == before[origin[x]])
            && (forall|x: int, y: int| 0 <= x < y < origin.len() ==> #[trigger] origin[x] < #[trigger] origin[y])
}

/// A message that stayed kept its data, but for its search status and a reply
/// id that became dangling.
pub open spec fn data_kept(before: MsgData, after: MsgData) -> bool {
    &&& after == (MsgData { match_status: after.match_status, op: after.op, ..before })
    &&& (after.op == before.op || after.op == ReplyId::Dangling)
}

/// In keys taken in order from `k0`, one of them being message `mid`'s with
/// time `t`, unique in `k0`, a search by `t` finds `mid`'s own key.
proof fn lemma_unique_time_finds(
    k0: Seq<Message>,
    keys: Seq<Message>,
    origin: Seq<int>,
    mid: MsgId,
    t: Time,
    ix: usize,
    k: int,
)
    requires
        origin.len() == keys.len(),
        forall|x: int| 0 <= x < origin.len() ==> 0 <= #[trigger] origin[x] < k0.len() && keys[x] == k0[origin[x]],
        forall|x: int, y: int| 0 <= x < y < origin.len() ==> #[trigger] origin[x] < #[trigger] origin[y],
        time_unique(k0, t),
        0 <= k < keys.len(),
        keys[k].msg_id == mid,
        keys[k].insertion_time == t,
        found_at(keys, ix, t),
    ensures
        keys[ix as int].msg_id == mid,
{
    let lk = origin[k];
    let lx = origin[ix as int];
    if ix as int != k {
        if (ix as int) < k {
            assert(lx < lk);
            assert(!(k0[lx].insertion_time == t && k0[lk].insertion_time == t));
        } else {
            assert(lk < lx);
            assert(!(k0[lk].insertion_time == t && k0[lx].insertion_time == t));
        }
    }
}


impl Messages {
    /// Deletes the message at row `index` from the list; the id it had, which
    /// storage is then to delete, or `None` when there is no such row.
    /// `body_matches` is what the pattern engine says of the message's body.
    pub fn delete_message_(&mut self, index: u64, body_matches: bool) -> (deleted: Option<MsgId>)
        requires
            old(self).wf(),
        ensures
            final(self).wf(),
            index >= old(self).container.keys().len() ==> deleted is None && final(self).container.keys()
                == old(self).container.keys(),
            index < old(self).container.keys().len() ==> deleted == Some(
                old(self).container.keys()[index as int].msg_id,
            ) && final(self).container.keys() == old(self).container.keys().remove(index as int),
            index < old(self).container.keys().len() ==> message_removed(
                *old(self),
                *final(self),
                old(self).container.keys()[index as int].msg_id,
                index as usize,
                body_matches,
            ),
            index >= old(self).container.keys().len() ==> *final(self) == *old(self),
    {
        let n = self.container.len();
        if index >= n as u64 {
            return None;
        }
        let ix = index as usize;
        let id = match self.container.get(ix) {
            Some(m) => m.msg_id,
            None => {
                return None;
            },
        };
        self.remove_helper(id, ix, body_matches);
        Some(id)
    }

    /// Empties the list and the search, telling the view; the conversation whose
    /// history storage is then to delete, or `None` when no conversation is set
    /// (and nothing changes).
    pub fn clear_conversation_history_(&mut self) -> (cleared: Option<ConversationId>)
        requires
            old(self).wf(),
        ensures
            final(self).wf(),
            cleared == old(self).conversation_id,
            old(self).conversation_id is None ==> *final(self) == *old(self),
            old(self).conversation_id is Some ==> final(self).container.keys().len() == 0
                && final(self).search.spec_matches().len() == 0,
            final(self).conversation_id == old(self).conversation_id,
            final(self).model.target() == old(self).model.target(),
            old(self).conversation_id is Some ==> exists|mid: Messages|
                #[trigger] search_cleared(*old(self), mid) && final(self).search == mid.search
                    && final(self).model@ == after_call(
                    after_call(
                        mid.model@,
                        old(self).model.target(),
                        ModelCall::BeginRemoveRows {
                            first: 0,
                            last: if old(self).container.keys().len() == 0 {
                                0usize
                            } else {
                                (old(self).container.keys().len() - 1) as usize
                            },
                        },
                    ),
                    old(self).model.target(),
                    ModelCall::EndRemoveRows,
                ) && raised_all(mid.emit@, final(self).emit@, last_changed_signals().push(MessagesSignal::IsEmptyChanged)),
    {
        let id = match self.conversation_id {
            Some(id) => id,
            None => {
                return None;
            },
        };
        self.clear_search_();
        let ghost mid = *self;
        let last = self.container.len().saturating_sub(1);
        self.model.begin_remove_rows(0, last);
        self.container = Container::new();
        self.model.end_remove_rows();
        let ghost e1 = self.emit@;
        self.emit_last_changed();
        let ghost e2 = self.emit@;
        self.emit.is_empty_changed();
        proof {
            lemma_raised_one(e2, self.emit@, MessagesSignal::IsEmptyChanged);
            lemma_raised_concat(e1, e2, self.emit@, last_changed_signals(), seq![MessagesSignal::IsEmptyChanged]);
            assert(last_changed_signals() + seq![MessagesSignal::IsEmptyChanged] =~= last_changed_signals().push(
                MessagesSignal::IsEmptyChanged,
            ));
            assert(search_cleared(*old(self), mid));
        }
        Some(id)
    }

    /// Binds the list to the conversation whose id is the bytes `conversation_id`,
    /// once: only when one is given, none was set before, and the bytes are an
    /// id. The conversation now bound, which the caller then registers and fills.
    pub fn set_conversation_id_(&mut self, conversation_id: Option<&[u8]>) -> (bound: Option<
        ConversationId,
    >)
        ensures
            final(self).container == old(self).container,
            bound is Some ==> old(self).conversation_id is None && final(self).conversation_id
                == bound,
            bound is None ==> final(self).conversation_id == old(self).conversation_id,
            (conversation_id matches Some(bytes) && old(self).conversation_id is None && bytes@.len()
                == 32) <==> bound is Some,
            bound matches Some(c) ==> (conversation_id matches Some(bytes) && c@ == bytes@),
    {
        match (conversation_id, self.conversation_id) {
            (Some(id), None) => {
                let cid = match id_from_slice(id) {
                    Some(c) => c,
                    None => {
                        return None;
                    },
                };
                self.conversation_id = Some(cid);
                Some(cid)
            },
            _ => None,
        }
    }

    /// Makes the message being composed answer the message whose id is the
    /// bytes `id` (or nothing), as the builder does against this list; whether
    /// that changed, which the view is then told. Bytes that are no id fail.
    pub fn set_builder_op_msg_id_(&mut self, id: Option<&[u8]>) -> (r: Result<OpChanged, NotFound>)
        ensures
            final(self).container == old(self).container,
            final(self).conversation_id == old(self).conversation_id,
            (id matches Some(b) && b@.len() != 32) <==> r is Err,
            r is Err ==> final(self).builder == old(self).builder,
            id is None ==> final(self).builder.op is None && (r == Ok::<OpChanged, NotFound>(OpChanged::Changed)
                <==> old(self).builder.op is Some),
    {
        self.builder.set_op_id(id, &self.container)
    }

    /// Takes over the messages that storage loaded for the conversation, telling
    /// the view; an empty load changes nothing.
    pub fn load_container(&mut self, container: Container)
        requires
            old(self).wf(),
            container.wf(),
        ensures
            final(self).wf(),
            container.keys().len() == 0 ==> final(self).container == old(self).container,
            container.keys().len() > 0 ==> final(self).container == container,
            final(self).conversation_id == old(self).conversation_id,
            final(self).search == old(self).search,
            final(self).model.target() == old(self).model.target(),
            container.keys().len() == 0 ==> final(self).model@ == old(self).model@ && final(self).emit@ == old(
                self,
            ).emit@,
            container.keys().len() > 0 ==> final(self).model@ == after_calls(
                old(self).model@,
                old(self).model.target(),
                loaded_calls(container.keys().len()),
            ) && raised_all(old(self).emit@, final(self).emit@, loaded_signals()),
    {
        if container.is_empty() {
            return;
        }
        let last = container.len() - 1;
        let ghost m0 = self.model@;
        let ghost t = self.model.target();
        self.model.begin_insert_rows(0, last);
        self.container = container;
        self.model.end_insert_rows();
        proof {
            lemma_calls_none(m0, t);
            lemma_calls_push(m0, t, Seq::<ModelCall>::empty(), ModelCall::BeginInsertRows { first: 0, last });
            lemma_calls_push(
                m0,
                t,
                Seq::<ModelCall>::empty().push(ModelCall::BeginInsertRows { first: 0, last }),
                ModelCall::EndInsertRows,
            );
            assert(Seq::<ModelCall>::empty().push(ModelCall::BeginInsertRows { first: 0, last }).push(
                ModelCall::EndInsertRows,
            ) =~= loaded_calls(self.container.keys().len()));
        }
        let ghost e0 = self.emit@;
        self.emit.is_empty_changed();
        let ghost e1 = self.emit@;
        self.emit_last_changed();
        proof {
            lemma_raised_one(e0, e1, MessagesSignal::IsEmptyChanged);
            lemma_raised_concat(e0, e1, self.emit@, seq![MessagesSignal::IsEmptyChanged], last_changed_signals());
        }
    }
}

/// An update for the message list of a conversation.
pub enum MsgUpdate {
    /// A message arrived and was stored.
    NewMsg(Msg),
    /// A message composed here, not stored yet.
    BuilderMsg(Msg),
    /// A message was acknowledged: the receipts that storage now holds for it.
    Receipt(MsgId, Vec<u32>),
    /// A message finished saving.
    StoreDone(MsgId),
    /// These messages expired.
    ExpiredMessages(Vec<MsgId>),
    /// What storage holds for the conversation, sent once it is bound.
    Container(Container),
}

/// What taking in one update leads to.
#[derive(Clone, Copy, PartialEq, Eq)]
pub enum FetchStep {
    /// Go on with the next update.
    Continue,
    /// Go on, after telling the conversation list of new activity in this conversation.
    Activity(ConversationId),
    /// Stop taking in updates.
    Stop,
}

/// How many messages an update names whose bodies the search looks at.
pub open spec fn bodies_named(update: MsgUpdate) -> int {
    match update {
        MsgUpdate::NewMsg(_) => 1,
        MsgUpdate::BuilderMsg(_) => 1,
        MsgUpdate::ExpiredMessages(mids) => mids@.len() as int,
        _ => 0,
    }
}

/// The step that the result of an insertion leads to.
pub open spec fn insert_step(r: Result<Option<ConversationId>, NotFound>) -> FetchStep {
    match r {
        Ok(Some(cid)) => FetchStep::Activity(cid),
        Ok(None) => FetchStep::Continue,
        Err(_) => FetchStep::Stop,
    }
}

impl Messages {
    /// Puts a message into the list as `insert_helper` does.
    fn take_message(&mut self, m: Msg, save_status: SaveStatus, body_matches: bool) -> (step: FetchStep)
        requires
            old(self).wf(),
            old(self).search.spec_matches().len() < usize::MAX,
            old(self).search.index matches Some(i) ==> i < usize::MAX,
            old(self).container.keys().len() < usize::MAX,
        ensures
            final(self).wf(),
            final(self).conversation_id == old(self).conversation_id,
            exists|r: Result<Option<ConversationId>, NotFound>|
                #[trigger] insert_effect(*old(self), *final(self), m, save_status, body_matches, r) && step
                    == insert_step(r),
            old(self).container.clean() && !old(self).container.data().contains_key(m.message_id)
                ==> final(self).container.clean(),
    {
        let ghost m0 = m;
        let r = self.insert_helper(m, save_status, body_matches);
        assert(insert_effect(*old(self), *self, m0, save_status, body_matches, r));
        match r {
            Ok(Some(cid)) => FetchStep::Activity(cid),
            Ok(None) => FetchStep::Continue,
            Err(_) => FetchStep::Stop,
        }
    }

    /// Takes in one update: a stored message goes in as saved and a composed one
    /// as unsaved, as `insert_helper` puts them in, a
    /// receipt or finished save updates its message, expired messages leave,
    /// and the first load of the conversation fills the list. `body_matches`
    /// holds what the pattern engine says of the bodies of the messages the
    /// update names, in order. Taking in stops when an insertion fails or a
    /// finished save names a message the list lacks.
    pub fn fetch_update(&mut self, update: MsgUpdate, body_matches: &Vec<bool>) -> (step: FetchStep)
        requires
            old(self).wf(),
            body_matches@.len() == bodies_named(update),
            old(self).search.spec_matches().len() < usize::MAX,
            old(self).search.index matches Some(i) ==> i < usize::MAX,
            old(self).container.keys().len() < usize::MAX,
            update matches MsgUpdate::Container(c) ==> c.wf(),
        ensures
            final(self).wf(),
            final(self).conversation_id == old(self).conversation_id,
            update matches MsgUpdate::NewMsg(m) && old(self).container.clean() && !old(self).container.data().contains_key(
                m.message_id,
            ) ==> final(self).container.clean(),
            update matches MsgUpdate::BuilderMsg(m) && old(self).container.clean() && !old(self).container.data().contains_key(
                m.message_id,
            ) ==> final(self).container.clean(),
            update matches MsgUpdate::Container(c) && ((c.keys().len() > 0 && c.clean()) || (c.keys().len() == 0
                && old(self).container.clean()))
                ==> final(self).container.clean(),
            !(update is NewMsg || update is BuilderMsg || update is Container) && old(self).container.clean()
                ==> final(self).container.clean(),
            match update {
                MsgUpdate::NewMsg(m) => exists|r: Result<Option<ConversationId>, NotFound>|
                    #[trigger] insert_effect(*old(self), *final(self), m, SaveStatus::Saved, body_matches@[0], r)
                        && step == insert_step(r),
                MsgUpdate::BuilderMsg(m) => exists|r: Result<Option<ConversationId>, NotFound>|
                    #[trigger] insert_effect(*old(self), *final(self), m, SaveStatus::Unsaved, body_matches@[0], r)
                        && step == insert_step(r),
                MsgUpdate::Receipt(mid, receipts) => {
                    &&& step == FetchStep::Continue
                    &&& final(self).container.keys() == old(self).container.keys()
                    &&& old(self).container.data().contains_key(mid) ==> final(self).container.data()
                        == old(self).container.data().insert(
                        mid,
                        (MsgData { receipts, ..old(self).container.data()[mid] }),
                    )
                    &&& !old(self).container.data().contains_key(mid) ==> final(self).container.data()
                        == old(self).container.data() && final(self).model@ == old(self).model@
                    &&& old(self).container.data().contains_key(mid) ==> exists|ix: usize|
                        container::last_row_of(old(self).container.keys(), mid, ix) && #[trigger] crate::signal::after_call(
                            old(self).model@,
                            old(self).model.target(),
                            ModelCall::DataChanged { first: ix, last: ix },
                        ) == final(self).model@
                },
                MsgUpdate::StoreDone(mid) => {
                    &&& final(self).container.keys() == old(self).container.keys()
                    &&& old(self).container.data().contains_key(mid) ==> step == FetchStep::Continue
                        && final(self).container.data() == old(self).container.data().insert(
                        mid,
                        (MsgData { save_status: SaveStatus::Saved, ..old(self).container.data()[mid] }),
                    )
                    &&& !old(self).container.data().contains_key(mid) ==> step == FetchStep::Stop
                        && final(self).container.data() == old(self).container.data() && final(self).model@ == old(
                        self,
                    ).model@
                    &&& old(self).container.data().contains_key(mid) ==> exists|ix: usize|
                        container::last_row_of(old(self).container.keys(), mid, ix) && #[trigger] crate::signal::after_call(
                            old(self).model@,
                            old(self).model.target(),
                            ModelCall::DataChanged { first: ix, last: ix },
                        ) == final(self).model@
                },
                MsgUpdate::ExpiredMessages(mids) => {
                    &&& step == FetchStep::Continue
                    &&& forall|k: MsgId|
                        #[trigger] final(self).container.data().contains_key(k) ==> old(
                            self,
                        ).container.data().contains_key(k)
                    &&& forall|j: int|
                        0 <= j < mids@.len() && old(self).container.data().contains_key(mids@[j]) && time_unique(
                            old(self).container.keys(),
                            old(self).container.data()[mids@[j]].time.insertion,
                        ) ==> !final(self).container.data().contains_key(#[trigger] mids@[j])
                    &&& kept_in_order(old(self).container.keys(), final(self).container.keys())
                    &&& forall|k: MsgId|
                        #[trigger] final(self).container.data().contains_key(k) ==> data_kept(
                            old(self).container.data()[k],
                            final(self).container.data()[k],
                        )
                    &&& expiry_times_unique(old(self).container.keys(), old(self).container.data(), mids@)
                        ==> forall|k: MsgId|
                        old(self).container.data().contains_key(k) && !mids@.contains(k)
                            ==> #[trigger] final(self).container.data().contains_key(k)
                    &&& final(self).container.keys() == expired(old(self).container.keys(), old(self).container.data(), mids@, mids@.len()).0
                    &&& final(self).container.data().dom() == expired(old(self).container.keys(), old(self).container.data(), mids@, mids@.len()).1
                    &&& exists|states: Seq<Messages>|
                        states.len() == mids@.len() + 1 && states[0] == *old(self) && states.last() == *final(self)
                            && #[trigger] expiry_chain(states, mids@, body_matches@, mids@.len())
                },
                MsgUpdate::Container(c) => {
                    &&& step == FetchStep::Continue
                    &&& final(self).model.target() == old(self).model.target()
                    &&& c.keys().len() == 0 ==> final(self).container == old(self).container
                        && final(self).model@ == old(self).model@ && final(self).emit@ == old(self).emit@
                    &&& c.keys().len() > 0 ==> final(self).container == c && final(self).model@ == after_calls(
                        old(self).model@,
                        old(self).model.target(),
                        loaded_calls(c.keys().len()),
                    ) && raised_all(old(self).emit@, final(self).emit@, loaded_signals())
                },
            },
    {
        match update {
            MsgUpdate::NewMsg(m) => self.take_message(m, SaveStatus::Saved, body_matches[0]),
            MsgUpdate::BuilderMsg(m) => self.take_message(m, SaveStatus::Unsaved, body_matches[0]),
            MsgUpdate::Receipt(mid, receipts) => {
                self.container.handle_receipt(mid, receipts, &mut self.model);
                FetchStep::Continue
            },
            MsgUpdate::StoreDone(mid) => match self.container.handle_store_done(mid, &mut self.model) {
                Some(()) => FetchStep::Continue,
                None => FetchStep::Stop,
            },
            MsgUpdate::ExpiredMessages(mids) => {
                self.handle_expiration(mids, body_matches);
                FetchStep::Continue
            },
            MsgUpdate::Container(c) => {
                self.load_container(c);
                FetchStep::Continue
            },
        }
    }
}

/// Whether stored messages come in order of insertion time, the order in which
/// storage hands out a conversation.
pub open spec fn loadable(msgs: Seq<Msg>) -> bool {
    forall|i: int, j: int| 0 <= i <= j < msgs.len() ==> msgs[i].time.insertion <= msgs[j].time.insertion
}

/// The first load of a conversation: the messages that storage read, as the
/// update that fills the list, their keys in the order given and all saved;
/// each id's data is that of the last message with the id. `None` when they
/// are not in time order.
pub fn fill(msgs: Vec<Msg>) -> (u: Option<MsgUpdate>)
    ensures
        loadable(msgs@) <==> u is Some,
        u matches Some(MsgUpdate::Container(c)) ==> {
            &&& c.wf()
            &&& c.keys().len() == msgs@.len()
            &&& forall|i: int| 0 <= i < msgs@.len() ==> #[trigger] c.keys()[i] == split_of(msgs@[i], SaveStatus::Saved).0
            &&& forall|k: MsgId| #[trigger] c.data().contains_key(k) <==> exists|i: int|
                0 <= i < msgs@.len() && msgs@[i].message_id == k
            &&& container::distinct_ids(msgs@) ==> c.clean() && forall|i: int|
                0 <= i < msgs@.len() ==> #[trigger] c.data_at(i) == split_of(msgs@[i], SaveStatus::Saved).1
        },
        u is Some ==> u matches Some(MsgUpdate::Container(_)),
{
    let mut i: usize = 0;
    while i < msgs.len()
        invariant
            i <= msgs@.len(),
            forall|a: int, b: int| 0 <= a <= b < i ==> msgs@[a].time.insertion <= msgs@[b].time.insertion,
        decreases msgs@.len() - i,
    {
        if i > 0 && msgs[i - 1].time.insertion > msgs[i].time.insertion {
            return None;
        }
        proof {
            assert forall|a: int, b: int| 0 <= a <= b < i + 1 implies msgs@[a].time.insertion
                <= msgs@[b].time.insertion by {
                if b == i && a < b {
                    assert(msgs@[a].time.insertion <= msgs@[i - 1].time.insertion);
                }
            }
        }
        i = i + 1;
    }
    Some(MsgUpdate::Container(Container::from_msgs(msgs)))
}

/// Whether two pairs of optional flags are equal.
pub fn same_flags(a: (Option<bool>, Option<bool>), b: (Option<bool>, Option<bool>)) -> (same: bool)
    ensures
        same == (a == b),
{
    same_flag(a.0, b.0) && same_flag(a.1, b.1)
}

/// Whether two optional flags are equal.
pub fn same_flag(a: Option<bool>, b: Option<bool>) -> (same: bool)
    ensures
        same == (a == b),
{
    match (a, b) {
        (None, None) => true,
        (Some(x), Some(y)) => x == y,
        _ => false,
    }
}

/// Whether two optional matches are the same match.
pub fn same_match(a: &Option<Match>, b: &Option<Match>) -> (same: bool)
    ensures
        same == (*a == *b),
{
    match (a, b) {
        (None, None) => true,
        (Some(x), Some(y)) => {
            let s = ids_equal(&x.0.msg_id, &y.0.msg_id) && x.0.insertion_time == y.0.insertion_time;
            proof {
                if x.0.msg_id == y.0.msg_id && x.0.insertion_time == y.0.insertion_time {
                    assert(x.0 == y.0);
                }
            }
            s
        },
        _ => false,
    }
}

} // verus!
