//! The search over the messages of a conversation: which messages match, and
//! which match has the focus.
use super::container::{container_wf, Container};
use super::store::found_at;
use super::types::{MatchStatus, Message, MsgData};
use crate::interface::messages::MessagesList;
use crate::interface::messages::{MessagesEmitter, MessagesSignal};
use crate::signal::{
    after_call, after_calls, lemma_calls_none, lemma_calls_push, lemma_raised_more, lemma_raised_none, lemma_raised_one, raised,
    raised_all, Emission, ModelCall,
};
use crate::types::{ids_equal, MsgId, Time};
use vstd::prelude::*;

verus! {

/// Whether an operation changed the search.
#[derive(PartialEq, Eq, Clone, Copy, Debug)]
pub enum SearchChanged {
    Changed,
    NotChanged,
}

impl SearchChanged {
    /// Whether this is `Changed`.
    pub fn changed(&self) -> (c: bool)
        ensures
            c == (*self == SearchChanged::Changed),
    {
        match self {
            SearchChanged::Changed => true,
            SearchChanged::NotChanged => false,
        }
    }
}

/// A pattern that does not compile in the mode asked for.
#[derive(PartialEq, Eq, Clone, Copy, Debug)]
pub struct PatternError;

/// The state of a search pattern: the text typed, and whether it is read as a
/// regular expression. Matching a body against it is done by the pattern engine
/// outside the library, which hands the outcome in.
pub struct PatternState {
    pub raw: String,
    pub regex: bool,
}

/// What setting the pattern text to `text` did to the pattern `before`,
/// giving `after` and `r`: the same text changes nothing; otherwise the new
/// text must compile (`compiles`) in the pattern's mode, normal when there was
/// no pattern, or nothing changes and the result is an error.
pub open spec fn pattern_update(
    before: Option<PatternState>,
    after: Option<PatternState>,
    text: Seq<char>,
    compiles: bool,
    r: Result<SearchChanged, PatternError>,
) -> bool {
    match before {
        Some(p) => if text == p.raw@ {
            r == Ok::<SearchChanged, PatternError>(SearchChanged::NotChanged) && after == before
        } else if compiles {
            r == Ok::<SearchChanged, PatternError>(SearchChanged::Changed) && (after matches Some(q) && q.raw@
                == text && q.regex == p.regex)
        } else {
            r is Err && after == before
        },
        None => if compiles {
            r == Ok::<SearchChanged, PatternError>(SearchChanged::Changed) && (after matches Some(q) && q.raw@
                == text && !q.regex)
        } else {
            r is Err && after is None
        },
    }
}

/// What switching the pattern `before` to regular-expression mode or back
/// (`use_regex`) did, giving `after` and `r`: asking for the mode it has, or
/// having no pattern, changes nothing; otherwise the text must compile in the
/// new mode (`compiles`), or nothing changes and the result is an error.
pub open spec fn regex_update(
    before: Option<PatternState>,
    after: Option<PatternState>,
    use_regex: bool,
    compiles: bool,
    r: Result<SearchChanged, PatternError>,
) -> bool {
    match before {
        Some(p) => if use_regex == p.regex {
            r == Ok::<SearchChanged, PatternError>(SearchChanged::NotChanged) && after == before
        } else if compiles {
            r == Ok::<SearchChanged, PatternError>(SearchChanged::Changed) && (after matches Some(q) && q.raw
                == p.raw && q.regex == use_regex)
        } else {
            r is Err && after == before
        },
        None => r == Ok::<SearchChanged, PatternError>(SearchChanged::NotChanged) && after is None,
    }
}

/// The signals that clearing the search raises, in order: the focus, the
/// pattern, the mode and the number of matches changed.
pub open spec fn cleared_signals() -> Seq<MessagesSignal> {
    seq![
        MessagesSignal::SearchIndexChanged,
        MessagesSignal::SearchPatternChanged,
        MessagesSignal::SearchRegexChanged,
        MessagesSignal::SearchNumMatchesChanged,
    ]
}

/// The signals that replacing the matches raises, in order.
pub open spec fn matches_set_signals() -> Seq<MessagesSignal> {
    seq![MessagesSignal::SearchNumMatchesChanged, MessagesSignal::SearchIndexChanged]
}

/// `after` is the pattern `before` with its text emptied: the mode stays, and no
/// pattern stays none.
pub open spec fn pattern_cleared(before: Option<PatternState>, after: Option<PatternState>) -> bool {
    match before {
        Some(p) => after matches Some(q) && q.raw@ == Seq::<char>::empty() && q.regex == p.regex,
        None => after is None,
    }
}

/// The search is on and the message `msg_id`, which the container holds, matches
/// it: there is a pattern, the message has a body, and the pattern engine
/// matched that body (`body_matches`).
pub open spec fn search_hit(search: SearchState, container: Container, msg_id: MsgId, body_matches: bool) -> bool {
    &&& search.active
    &&& container.data().contains_key(msg_id)
    &&& search.pattern is Some
    &&& container.data()[msg_id].body.is_some()
    &&& body_matches
}

/// `d1` holds the messages of `d0` with the same data but, maybe, their search status.
pub open spec fn only_status_changed(d0: Map<MsgId, MsgData>, d1: Map<MsgId, MsgData>) -> bool {
    &&& d1.dom() == d0.dom()
    &&& forall|k: MsgId|
        #[trigger] d1.contains_key(k) ==> d1[k] == (MsgData { match_status: d1[k].match_status, ..d0[k] })
}

/// Every signal of `s` is about the number of matches or the focus.
pub open spec fn search_only(s: Seq<MessagesSignal>) -> bool {
    forall|i: int|
        0 <= i < s.len() ==> #[trigger] s[i] == MessagesSignal::SearchNumMatchesChanged || s[i]
            == MessagesSignal::SearchIndexChanged
}

/// Some match of `m` is of the message `id`.
pub open spec fn has_match_id(m: Seq<Match>, id: MsgId) -> bool {
    exists|p: int| 0 <= p < m.len() && #[trigger] m[p].0.msg_id == id
}

/// `p` is the first position of `m` with a match of the message `id`.
pub open spec fn first_with_id(m: Seq<Match>, id: MsgId, p: int) -> bool {
    &&& 0 <= p < m.len()
    &&& m[p].0.msg_id == id
    &&& forall|j: int| 0 <= j < p ==> #[trigger] m[j].0.msg_id != id
}

/// Where the focus goes when the match at `p` leaves and `remaining` matches
/// are left: nowhere when none are; one back (staying at the first) when the
/// focus was at or after `p`; else where it was.
pub open spec fn index_after_removal(index: Option<usize>, p: int, remaining: nat) -> Option<usize> {
    if remaining == 0 {
        None
    } else {
        match index {
            Some(ix) => if p <= ix {
                Some(if ix == 0 { 0usize } else { (ix - 1) as usize })
            } else {
                Some(ix)
            },
            None => None,
        }
    }
}

/// Dropping a match other than the focused one keeps the focus on the same
/// match: the focus index moves back by one when the dropped match came
/// before it.
pub proof fn dropping_another_match_keeps_the_focus(m: Seq<Match>, p: int, ix: usize)
    requires
        0 <= p < m.len(),
        ix < m.len(),
        p != ix,
    ensures
        index_after_removal(Some(ix), p, m.remove(p).len()) matches Some(j) && match_at(m.remove(p), j as int)
            == match_at(m, ix as int),
{
    let rest = m.remove(p);
    assert(rest.len() > 0);
    if p < ix {
        assert(rest[ix - 1] == m[ix as int]);
    } else {
        assert(rest[ix as int] == m[ix as int]);
    }
}

/// The focus moves when the match at `p` leaves: none are left, or it was at
/// or after `p`.
pub open spec fn focus_shifts(index: Option<usize>, p: int, remaining: nat) -> bool {
    remaining == 0 || (index matches Some(ix) && p <= ix)
}

/// What dropping the match at `p` did: the matches lose it, the focus moves as
/// `index_after_removal` says, the view hears that the number of matches
/// changed and, when the focus moved, that it did. When the focus moved to a
/// match whose message the container holds, that message becomes focused and
/// its row (the one with the match's time, when there is one) is redrawn;
/// otherwise the container's data and the model are left alone.
pub open spec fn match_removed(
    before: SearchState,
    after: SearchState,
    c0: Container,
    c1: Container,
    e0: Seq<Emission<MessagesSignal>>,
    e1: Seq<Emission<MessagesSignal>>,
    m0: Seq<ModelCall>,
    m1: Seq<ModelCall>,
    target: usize,
    p: int,
) -> bool {
    let rest = before.spec_matches().remove(p);
    let shifts = focus_shifts(before.index, p, rest.len());
    let new_ix = index_after_removal(before.index, p, rest.len());
    let focus_held = rest.len() > 0 && shifts && new_ix.unwrap() < rest.len() && c0.data().contains_key(
        rest[new_ix.unwrap() as int].0.msg_id,
    );
    &&& after.spec_matches() == rest
    &&& after.index == new_ix
    &&& raised_all(e0, e1, if shifts { matches_set_signals() } else { seq![MessagesSignal::SearchNumMatchesChanged] })
    &&& c1.keys() == c0.keys()
    &&& focus_held ==> {
        let f = rest[new_ix.unwrap() as int].0;
        &&& c1.data() == c0.data().insert(f.msg_id, MsgData { match_status: MatchStatus::Focused, ..c0.data()[f.msg_id] })
        &&& (exists|ci: usize| found_at(c0.keys(), ci, f.insertion_time)) ==> exists|ci: usize|
            found_at(c0.keys(), ci, f.insertion_time) && m1 == after_call(m0, target, ModelCall::DataChanged { first: ci, last: ci })
        &&& !(exists|ci: usize| found_at(c0.keys(), ci, f.insertion_time)) ==> m1 == m0
    }
    &&& !focus_held ==> c1.data() == c0.data() && m1 == m0
}

/// A match with insertion time `t` can join the matches `m` at their end: there
/// are none, or the last is no later.
pub open spec fn joins_matches(m: Seq<Match>, t: Time) -> bool {
    m.len() == 0 || m.last().0.insertion_time <= t
}

/// A new match joins the end of the matches only where that keeps them in time
/// order: appending a match with insertion time `t` to matches in time order
/// leaves them in time order exactly when `joins_matches` allows it.
pub proof fn joining_keeps_the_matches_in_time_order(m: Seq<Match>, k: Message)
    requires
        matches_sorted(m),
    ensures
        joins_matches(m, k.insertion_time) <==> matches_sorted(m.push(Match(k))),
{
    let m2 = m.push(Match(k));
    if joins_matches(m, k.insertion_time) {
        assert forall|i: int, j: int| 0 <= i <= j < m2.len() implies m2[i].0.insertion_time <= m2[j].0.insertion_time by {
            if j == m.len() && i < m.len() {
                assert(m[i].0.insertion_time <= m[m.len() - 1].0.insertion_time);
            }
        }
    } else {
        assert(m2[m.len() - 1] == m[m.len() - 1]);
        assert(m2[m.len() as int] == Match(k));
    }
}

/// A message that matches the search.
#[derive(Clone, Copy)]
pub struct Match(pub Message);

/// The index that `next` moves to among `n` matches.
pub open spec fn spec_next_index(index: Option<usize>, start: Option<usize>, n: nat) -> int {
    match index {
        Some(i) => (i + 1) % (n as int),
        None => match start {
            Some(s) => s as int,
            None => 0,
        },
    }
}

/// The index that `prev` moves to among `n` matches.
pub open spec fn spec_prev_index(index: Option<usize>, start: Option<usize>, n: nat) -> int {
    match index {
        Some(i) => if i == 0 {
            if n == 0 { 0 } else { n - 1 }
        } else {
            i - 1
        },
        None => match start {
            Some(s) => s as int,
            None => if n == 0 { 0 } else { n - 1 },
        },
    }
}

/// The match at `i`, `None` past the end.
pub open spec fn match_at(m: Seq<Match>, i: int) -> Option<Match> {
    if 0 <= i < m.len() {
        Some(m[i])
    } else {
        None
    }
}

/// Whether the matches are in non-decreasing order of insertion time.
pub open spec fn matches_sorted(m: Seq<Match>) -> bool {
    forall|i: int, j: int| 0 <= i <= j < m.len() ==> m[i].0.insertion_time <= m[j].0.insertion_time
}

/// `start` lies within the matches (at 0 when there are none), at a match no
/// later than `time` unless it is the first, and unless that match has `time`
/// itself every match after it is later than `time`: it is the last match no
/// later than `time`, or the first when all are later.
pub open spec fn start_near(start: Option<usize>, m: Seq<Match>, time: Time) -> bool {
    match start {
        Some(s) => {
            &&& s <= m.len()
            &&& m.len() > 0 ==> s < m.len()
            &&& 0 < s < m.len() ==> m[s as int].0.insertion_time <= time
            &&& s < m.len() && m[s as int].0.insertion_time != time ==> forall|j: int|
                s < j < m.len() ==> #[trigger] m[j].0.insertion_time > time
        },
        None => false,
    }
}

/// Where no match has the hinted time, the starting point splits the matches:
/// those up to it are no later than the time (but for the first, when every
/// match is later), and those after it are later.
pub proof fn the_start_is_the_last_match_before_the_hint(s: usize, m: Seq<Match>, time: Time)
    requires
        matches_sorted(m),
        start_near(Some(s), m, time),
        forall|j: int| 0 <= j < m.len() ==> #[trigger] m[j].0.insertion_time != time,
        m.len() > 0,
        m[0].0.insertion_time < time,
    ensures
        forall|j: int| 0 <= j < m.len() ==> (m[j].0.insertion_time < time <==> j <= s),
{
    assert forall|j: int| 0 <= j < m.len() implies (m[j].0.insertion_time < time <==> j <= s) by {
        if j <= s {
            if s > 0 {
                assert(m[j].0.insertion_time <= m[s as int].0.insertion_time);
            }
        } else {
            assert(m[s as int].0.insertion_time != time);
            assert(m[j].0.insertion_time > time);
        }
    }
}

/// Searches sorted matches for insertion time `time`: `Ok` of an index with that
/// time, or `Err` of the index where a match with that time belongs.
pub fn search_matches(matches: &Vec<Match>, time: Time) -> (r: Result<usize, usize>)
    ensures
        matches_sorted(matches@) ==> match r {
            Ok(i) => i < matches@.len() && matches@[i as int].0.insertion_time == time,
            Err(i) => i <= matches@.len() && (forall|j: int|
                0 <= j < i ==> matches@[j].0.insertion_time < time) && (forall|j: int|
                i <= j < matches@.len() ==> matches@[j].0.insertion_time > time),
        },
{
    let mut lo: usize = 0;
    let mut hi: usize = matches.len();
    while lo < hi
        invariant
            lo <= hi <= matches@.len(),
            matches_sorted(matches@) ==> forall|j: int|
                0 <= j < lo ==> matches@[j].0.insertion_time < time,
            matches_sorted(matches@) ==> forall|j: int|
                hi <= j < matches@.len() ==> matches@[j].0.insertion_time >= time,
        decreases hi - lo,
    {
        let mid = lo + (hi - lo) / 2;
        if matches[mid].0.insertion_time < time {
            lo = mid + 1;
        } else {
            hi = mid;
        }
    }
    if lo < matches.len() && matches[lo].0.insertion_time == time {
        Ok(lo)
    } else {
        Err(lo)
    }
}

/// The index of the first match with message id `id`.
pub fn position_of(matches: &Vec<Match>, id: &MsgId) -> (pos: Option<usize>)
    ensures
        pos matches Some(p) ==> p < matches@.len() && matches@[p as int].0.msg_id == *id && forall|
            j: int,
        | 0 <= j < p ==> matches@[j].0.msg_id != *id,
        pos is None ==> forall|j: int| 0 <= j < matches@.len() ==> matches@[j].0.msg_id != *id,
{
    let mut i: usize = 0;
    while i < matches.len()
        invariant
            i <= matches@.len(),
            forall|j: int| 0 <= j < i ==> matches@[j].0.msg_id != *id,
        decreases matches@.len() - i,
    {
        if ids_equal(&matches[i].0.msg_id, id) {
            return Some(i);
        }
        i = i + 1;
    }
    None
}

/// The search over a conversation's messages.
pub struct SearchState {
    pub pattern: Option<PatternState>,
    pub active: bool,
    pub matches: Vec<Match>,
    pub start_index: Option<usize>,
    pub index: Option<usize>,
}

impl SearchState {
    /// The matches, in order.
    pub closed spec fn spec_matches(&self) -> Seq<Match> {
        self.matches@
    }

    /// Where stepping starts when no match has the focus yet.
    pub closed spec fn spec_start(&self) -> Option<usize> {
        self.start_index
    }

    /// The search is on, with an empty pattern in normal mode and no matches.
    pub fn new() -> (s: SearchState)
        ensures
            s.pattern matches Some(p) && p.raw@ == Seq::<char>::empty() && !p.regex,
            !s.active,
            s.spec_matches() == Seq::<Match>::empty(),
            s.spec_start() is None,
            s.index is None,
    {
        SearchState {
            pattern: Some(PatternState { raw: String::new(), regex: false }),
            active: false,
            matches: Vec::new(),
            start_index: None,
            index: None,
        }
    }

    /// Whether the pattern is read as a regular expression.
    pub fn is_regex(&self) -> (r: bool)
        ensures
            r == (self.pattern matches Some(p) && p.regex),
    {
        match &self.pattern {
            Some(p) => p.regex,
            None => false,
        }
    }

    /// The number of matches.
    pub fn num_matches(&self) -> (n: usize)
        ensures
            n == self.spec_matches().len(),
    {
        self.matches.len()
    }

    /// Sets the pattern text. The same text changes nothing; otherwise the new
    /// text must compile (in the pattern's mode, normal when there was no
    /// pattern), which `compiles` reports, or the pattern stays and the result is
    /// an error.
    pub fn set_pattern_inner(&mut self, pattern: String, compiles: bool) -> (r: Result<
        SearchChanged,
        PatternError,
    >)
        ensures
            final(self).active == old(self).active,
            final(self).index == old(self).index,
            final(self).spec_matches() == old(self).spec_matches(),
            final(self).spec_start() == old(self).spec_start(),
            pattern_update(old(self).pattern, final(self).pattern, pattern@, compiles, r),
    {
        match &mut self.pattern {
            Some(old_pattern) => {
                if pattern.eq(&old_pattern.raw) {
                    return Ok(SearchChanged::NotChanged);
                }
                if !compiles {
                    return Err(PatternError);
                }
                old_pattern.raw = pattern;
                Ok(SearchChanged::Changed)
            },
            None => {
                if !compiles {
                    return Err(PatternError);
                }
                self.pattern = Some(PatternState { raw: pattern, regex: false });
                Ok(SearchChanged::Changed)
            },
        }
    }

    /// Sets the pattern text as `set_pattern_inner` does, and tells the view
    /// when the pattern changed.
    pub fn set_pattern(&mut self, pattern: String, compiles: bool, emit: &mut MessagesEmitter) -> (r:
        Result<SearchChanged, PatternError>)
        ensures
            final(self).active == old(self).active,
            final(self).index == old(self).index,
            final(self).spec_matches() == old(self).spec_matches(),
            final(self).spec_start() == old(self).spec_start(),
            pattern_update(old(self).pattern, final(self).pattern, pattern@, compiles, r),
            r == Ok::<SearchChanged, PatternError>(SearchChanged::Changed) ==> raised(
                old(emit)@,
                final(emit)@,
                MessagesSignal::SearchPatternChanged,
            ),
            r != Ok::<SearchChanged, PatternError>(SearchChanged::Changed) ==> final(emit)@ == old(emit)@,
    {
        let r = self.set_pattern_inner(pattern, compiles);
        match r {
            Ok(SearchChanged::Changed) => {
                emit.search_pattern_changed();
            },
            _ => {},
        }
        r
    }

    /// Replaces the matches and drops the focus.
    pub fn set_matches_inner(&mut self, matches: Vec<Match>)
        ensures
            final(self).spec_matches() == matches@,
            final(self).index is None,
            final(self).active == old(self).active,
            final(self).pattern == old(self).pattern,
            final(self).spec_start() == old(self).spec_start(),
    {
        self.matches = matches;
        self.index = None;
    }

    /// Replaces the matches, drops the focus, and tells the view that the number
    /// of matches and the focus changed.
    pub fn set_matches(&mut self, matches: Vec<Match>, emit: &mut MessagesEmitter)
        ensures
            final(self).spec_matches() == matches@,
            final(self).index is None,
            final(self).active == old(self).active,
            final(self).pattern == old(self).pattern,
            final(self).spec_start() == old(self).spec_start(),
            exists|mid: Seq<Emission<MessagesSignal>>|
                raised(old(emit)@, mid, MessagesSignal::SearchNumMatchesChanged) && raised(
                    mid,
                    final(emit)@,
                    MessagesSignal::SearchIndexChanged,
                ),
            raised_all(old(emit)@, final(emit)@, matches_set_signals()),
    {
        self.set_matches_inner(matches);
        let ghost e0 = emit@;
        emit.search_num_matches_changed();
        let ghost e1 = emit@;
        emit.search_index_changed();
        assert(raised(e0, e1, MessagesSignal::SearchNumMatchesChanged));
        proof {
            lemma_raised_one(e0, e1, MessagesSignal::SearchNumMatchesChanged);
            lemma_raised_more(e0, e1, emit@, seq![MessagesSignal::SearchNumMatchesChanged], MessagesSignal::SearchIndexChanged);
            assert(seq![MessagesSignal::SearchNumMatchesChanged].push(MessagesSignal::SearchIndexChanged)
                =~= matches_set_signals());
        }
    }

    /// Whether the message with id `msg_id` matches the search, `body_matches`
    /// being what the pattern engine says of its body; `None` when the container
    /// lacks the message or there is no pattern.
    pub fn msg_matches(&self, msg_id: &MsgId, container: &Container, body_matches: bool) -> (r:
        Option<bool>)
        ensures
            !container.data().contains_key(*msg_id) ==> r is None,
            container.data().contains_key(*msg_id) && self.pattern is None ==> r is None,
            container.data().contains_key(*msg_id) && self.pattern is Some ==> r == Some(
                container.data()[*msg_id].body.is_some() && body_matches,
            ),
    {
        let data = container.get_data(msg_id);
        match data {
            None => None,
            Some(d) => match &self.pattern {
                None => None,
                Some(_) => Some(d.matches(body_matches)),
            },
        }
    }

    /// Switches the pattern between regular-expression and normal mode. Asking
    /// for the mode it has changes nothing; otherwise the text must compile in
    /// the new mode, which `compiles` reports, or the mode stays and the result
    /// is an error.
    pub fn set_regex_inner(&mut self, use_regex: bool, compiles: bool) -> (r: Result<
        SearchChanged,
        PatternError,
    >)
        ensures
            final(self).active == old(self).active,
            final(self).index == old(self).index,
            final(self).spec_matches() == old(self).spec_matches(),
            final(self).spec_start() == old(self).spec_start(),
            regex_update(old(self).pattern, final(self).pattern, use_regex, compiles, r),
    {
        let current = self.is_regex();
        match &mut self.pattern {
            Some(p) => {
                if use_regex == current {
                    return Ok(SearchChanged::NotChanged);
                }
                if !compiles {
                    return Err(PatternError);
                }
                p.regex = use_regex;
                Ok(SearchChanged::Changed)
            },
            None => Ok(SearchChanged::NotChanged),
        }
    }

    /// Switches the mode as `set_regex_inner` does, and tells the view when the
    /// mode changed.
    pub fn set_regex(&mut self, use_regex: bool, compiles: bool, emit: &mut MessagesEmitter) -> (r:
        Result<SearchChanged, PatternError>)
        ensures
            final(self).active == old(self).active,
            final(self).index == old(self).index,
            final(self).spec_matches() == old(self).spec_matches(),
            final(self).spec_start() == old(self).spec_start(),
            regex_update(old(self).pattern, final(self).pattern, use_regex, compiles, r),
            r == Ok::<SearchChanged, PatternError>(SearchChanged::Changed) ==> raised(
                old(emit)@,
                final(emit)@,
                MessagesSignal::SearchRegexChanged,
            ),
            r != Ok::<SearchChanged, PatternError>(SearchChanged::Changed) ==> final(emit)@ == old(emit)@,
    {
        let r = self.set_regex_inner(use_regex, compiles);
        match r {
            Ok(SearchChanged::Changed) => {
                emit.search_regex_changed();
            },
            _ => {},
        }
        r
    }

    /// Empties the pattern text (an empty text compiles in either mode), drops
    /// the matches, the focus and the starting point.
    pub fn clear_search_inner(&mut self) -> (r: Result<(), PatternError>)
        ensures
            r is Ok,
            final(self).spec_matches() == Seq::<Match>::empty(),
            final(self).index is None,
            final(self).spec_start() is None,
            final(self).active == old(self).active,
            match old(self).pattern {
                Some(p) => final(self).pattern matches Some(q) && q.raw@ == Seq::<char>::empty()
                    && q.regex == p.regex,
                None => final(self).pattern is None,
            },
    {
        match &mut self.pattern {
            Some(p) => {
                p.raw = String::new();
            },
            None => {},
        }
        self.matches = Vec::new();
        self.index = None;
        self.start_index = None;
        Ok(())
    }

    /// Clears the search as `clear_search_inner` does, and tells the view that
    /// the focus, the pattern, the mode and the number of matches changed.
    pub fn clear_search(&mut self, emit: &mut MessagesEmitter) -> (r: Result<(), PatternError>)
        ensures
            r is Ok,
            final(self).spec_matches() == Seq::<Match>::empty(),
            final(self).index is None,
            final(self).spec_start() is None,
            final(self).active == old(self).active,
            final(emit)@.len() <= old(emit)@.len() + 4,
            final(emit)@.subrange(0, old(emit)@.len() as int) == old(emit)@,
            pattern_cleared(old(self).pattern, final(self).pattern),
            raised_all(old(emit)@, final(emit)@, cleared_signals()),
    {
        self.clear_search_inner();
        let ghost e0 = emit@;
        emit.search_index_changed();
        let ghost e1 = emit@;
        emit.search_pattern_changed();
        let ghost e2 = emit@;
        emit.search_regex_changed();
        let ghost e3 = emit@;
        emit.search_num_matches_changed();
        proof {
            let sg = cleared_signals();
            lemma_raised_one(e0, e1, sg[0]);
            assert(seq![sg[0]] =~= sg.take(1));
            lemma_raised_more(e0, e1, e2, sg.take(1), sg[1]);
            assert(sg.take(1).push(sg[1]) =~= sg.take(2));
            lemma_raised_more(e0, e2, e3, sg.take(2), sg[2]);
            assert(sg.take(2).push(sg[2]) =~= sg.take(3));
            lemma_raised_more(e0, e3, emit@, sg.take(3), sg[3]);
            assert(sg.take(3).push(sg[3]) =~= sg);
        }
        Ok(())
    }

    /// Where `next` starts without a focus: the starting point, or the first match.
    pub fn initial_next_index(&self) -> (i: usize)
        ensures
            i == spec_next_index(None, self.spec_start(), self.spec_matches().len()),
            self.spec_start() matches Some(s) ==> i == s,
            self.spec_start() is None ==> i == 0,
    {
        match self.start_index {
            Some(s) => s,
            None => 0,
        }
    }

    /// Where `prev` starts without a focus: the starting point, or the last match.
    pub fn initial_prev_index(&self) -> (i: usize)
        ensures
            i == spec_prev_index(None, self.spec_start(), self.spec_matches().len()),
            self.spec_start() matches Some(s) ==> i == s,
            self.spec_start() is None && self.spec_matches().len() > 0 ==> i == self.spec_matches().len() - 1,
            self.spec_start() is None && self.spec_matches().len() == 0 ==> i == 0,
    {
        match self.start_index {
            Some(s) => s,
            None => self.num_matches().saturating_sub(1),
        }
    }

    /// The match that has the focus, if any.
    pub fn current(&self) -> (m: Option<Match>)
        ensures
            self.index is None ==> m is None,
            self.index matches Some(i) ==> m == match_at(self.spec_matches(), i as int),
    {
        match self.index {
            None => None,
            Some(ix) => {
                if ix < self.matches.len() {
                    Some(self.matches[ix])
                } else {
                    None
                }
            },
        }
    }

    /// Moves the focus to the next match, wrapping around at the end; nothing
    /// happens while the search is off.
    pub fn next(&mut self) -> (m: Option<Match>)
        requires
            old(self).index is Some ==> old(self).spec_matches().len() > 0,
            old(self).index matches Some(i) ==> i < usize::MAX,
        ensures
            final(self).spec_matches() == old(self).spec_matches(),
            final(self).spec_start() == old(self).spec_start(),
            final(self).active == old(self).active,
            final(self).pattern == old(self).pattern,
            !old(self).active ==> m is None && final(self).index == old(self).index,
            old(self).active ==> {
                let i = spec_next_index(
                    old(self).index,
                    old(self).spec_start(),
                    old(self).spec_matches().len(),
                );
                &&& final(self).index == Some(i as usize)
                &&& m == match_at(old(self).spec_matches(), i)
            },
            old(self).active && old(self).index is None && old(self).spec_start() is None ==> final(self).index == Some(
                0usize,
            ),
            old(self).active && old(self).index is Some && old(self).index.unwrap() + 1 < old(self).spec_matches().len()
                ==> final(self).index == Some((old(self).index.unwrap() + 1) as usize),
            old(self).active && old(self).index is Some && old(self).index.unwrap() + 1 == old(self).spec_matches().len()
                ==> final(self).index == Some(0usize),
    {
        if !self.active {
            return None;
        }
        let index = match self.index {
            Some(index) => (index + 1) % self.matches.len(),
            None => self.initial_next_index(),
        };
        proof {
            if old(self).index is Some {
                let i = old(self).index.unwrap();
                let n = old(self).spec_matches().len();
                if i + 1 < n {
                    assert((i + 1) % (n as int) == i + 1) by (nonlinear_arith)
                        requires
                            0 <= i,
                            i + 1 < n,
                    ;
                } else if i + 1 == n {
                    assert((i + 1) % (n as int) == 0) by (nonlinear_arith)
                        requires
                            i + 1 == n,
                    ;
                }
            }
        }
        self.index = Some(index);
        if index < self.matches.len() {
            Some(self.matches[index])
        } else {
            None
        }
    }

    /// Moves the focus to the previous match, wrapping around at the start;
    /// nothing happens while the search is off.
    pub fn prev(&mut self) -> (m: Option<Match>)
        ensures
            final(self).spec_matches() == old(self).spec_matches(),
            final(self).spec_start() == old(self).spec_start(),
            final(self).active == old(self).active,
            final(self).pattern == old(self).pattern,
            !old(self).active ==> m is None && final(self).index == old(self).index,
            old(self).active ==> {
                let i = spec_prev_index(
                    old(self).index,
                    old(self).spec_start(),
                    old(self).spec_matches().len(),
                );
                &&& final(self).index == Some(i as usize)
                &&& m == match_at(old(self).spec_matches(), i)
            },
            old(self).active && old(self).index is None && old(self).spec_start() is None && old(self).spec_matches().len()
                > 0 ==> final(self).index == Some((old(self).spec_matches().len() - 1) as usize) && m == Some(
                old(self).spec_matches().last(),
            ),
            old(self).active && old(self).index is Some && 0 < old(self).index.unwrap() ==> final(self).index == Some(
                (old(self).index.unwrap() - 1) as usize,
            ),
            old(self).active && old(self).index == Some(0usize) && old(self).spec_matches().len() > 0 ==> final(self).index
                == Some((old(self).spec_matches().len() - 1) as usize),
    {
        if !self.active {
            return None;
        }
        let index = match self.index {
            Some(index) => if index == 0 {
                self.matches.len().saturating_sub(1)
            } else {
                index - 1
            },
            None => self.initial_prev_index(),
        };
        self.index = Some(index);
        if index < self.matches.len() {
            Some(self.matches[index])
        } else {
            None
        }
    }
}

/// Stepping back with no focus and no starting point goes to the last, newest
/// match; with a starting point it goes there.
pub proof fn stepping_back_from_nowhere_goes_to_the_last_match(start: Option<usize>, n: nat)
    requires
        n > 0,
    ensures
        start is None ==> spec_prev_index(None, start, n) == n - 1,
        start matches Some(s) ==> spec_prev_index(None, start, n) == s,
{
}

/// Stepping forward with no focus and no starting point goes to the first,
/// oldest match; with a starting point it goes there.
pub proof fn stepping_forward_from_nowhere_goes_to_the_first_match(start: Option<usize>, n: nat)
    ensures
        start is None ==> spec_next_index(None, start, n) == 0,
        start matches Some(s) ==> spec_next_index(None, start, n) == s,
{
}

/// From a focused match, stepping back goes to the match before it, and from
/// the first one to the last.
pub proof fn stepping_back_goes_to_the_match_before(i: usize, start: Option<usize>, n: nat)
    requires
        i < n,
    ensures
        i > 0 ==> spec_prev_index(Some(i), start, n) == i - 1,
        i == 0 ==> spec_prev_index(Some(i), start, n) == n - 1,
{
}

/// Stepping forward and then back returns the focus to the match it was on.
pub proof fn next_then_prev_returns(i: usize, start: Option<usize>, n: nat)
    requires
        i < n,
        n <= usize::MAX,
    ensures
        spec_prev_index(
            Some(spec_next_index(Some(i), start, n) as usize),
            start,
            n,
        ) == i,
{
    let x = spec_next_index(Some(i), start, n);
    if i + 1 < n {
        assert((i + 1) % (n as int) == i + 1) by (nonlinear_arith)
            requires
                i + 1 < n,
                0 <= i,
        ;
        assert(x == i + 1);
        assert(x as usize == i + 1);
    } else {
        assert((i + 1) % (n as int) == 0) by (nonlinear_arith)
            requires
                i + 1 == n,
        ;
        assert(x == 0);
        assert(x as usize == 0);
    }
}

/// Stepping back and then forward returns the focus to the match it was on.
pub proof fn prev_then_next_returns(i: usize, start: Option<usize>, n: nat)
    requires
        i < n,
        n <= usize::MAX,
    ensures
        spec_next_index(
            Some(spec_prev_index(Some(i), start, n) as usize),
            start,
            n,
        ) == i,
{
    let p = spec_prev_index(Some(i), start, n);
    if i == 0 {
        assert(p == n - 1);
        assert(p as usize == n - 1);
        assert((n - 1 + 1) % (n as int) == 0) by (nonlinear_arith)
            requires
                n > 0,
        ;
    } else {
        assert(p == i - 1);
        assert(p as usize == i - 1);
        assert((i - 1 + 1) % (n as int) == i) by (nonlinear_arith)
            requires
                0 < i < n,
        ;
    }
}

/// From a match, stepping forward lands on a match again.
pub proof fn next_stays_in_range(i: usize, start: Option<usize>, n: nat)
    requires
        i < n,
    ensures
        0 <= spec_next_index(Some(i), start, n) < n,
{
    assert(0 <= (i + 1) % (n as int) < n) by (nonlinear_arith)
        requires
            n > 0,
    ;
}

impl SearchState {
    /// Sets where stepping starts: near the message at `approx_index` of the
    /// container (the view computes it from its scroll position), at the match
    /// with that message's time or the one before where it would go. `None`
    /// when `approx_index` is past the end.
    pub fn start_hint(&mut self, approx_index: usize, container: &Container) -> (r: Option<()>)
        ensures
            final(self).spec_matches() == old(self).spec_matches(),
            final(self).index == old(self).index,
            final(self).active == old(self).active,
            final(self).pattern == old(self).pattern,
            approx_index >= container.keys().len() ==> r is None && final(self).spec_start() == old(
                self,
            ).spec_start(),
            approx_index < container.keys().len() ==> r is Some && final(self).spec_start() is Some,
            approx_index < container.keys().len() && matches_sorted(old(self).spec_matches())
                ==> start_near(
                final(self).spec_start(),
                old(self).spec_matches(),
                container.keys()[approx_index as int].insertion_time,
            ),
    {
        let closest = match container.get(approx_index) {
            Some(m) => *m,
            None => {
                return None;
            },
        };
        let index = match search_matches(&self.matches, closest.insertion_time) {
            Ok(ix) => ix,
            Err(ix) => ix.saturating_sub(1),
        };
        self.start_index = Some(index);
        Some(())
    }

    /// Drops the message with id `msg_id` from the matches when it is one, and
    /// keeps the focus on the match it was on (or the one before, when the
    /// dropped match was at or before the focus, which the view is told about).
    /// `body_matches` is what the pattern engine says of the message's body.
    pub fn try_remove_match(
        &mut self,
        msg_id: &MsgId,
        body_matches: bool,
        container: &mut Container,
        emit: &mut MessagesEmitter,
        model: &mut MessagesList,
    ) -> (r: Option<()>)
        requires
            old(container).wf(),
        ensures
            final(container).wf(),
            old(container).clean() ==> final(container).clean(),
            final(container).keys() == old(container).keys(),
            final(self).active == old(self).active,
            final(self).pattern == old(self).pattern,
            final(self).spec_start() == old(self).spec_start(),
            final(model).target() == old(model).target(),
            !old(container).data().contains_key(*msg_id) && old(self).active ==> r is None,
            !old(self).active || (old(container).data().contains_key(*msg_id) && old(self).pattern is Some
                && !(old(container).data()[*msg_id].body.is_some() && body_matches)) ==> r is Some
                && final(self).spec_matches() == old(self).spec_matches() && final(self).index == old(
                self,
            ).index && final(container).data() == old(container).data(),
            final(self).spec_matches() != old(self).spec_matches() ==> exists|p: int|
                0 <= p < old(self).spec_matches().len() && old(self).spec_matches()[p].0.msg_id == *msg_id
                    && final(self).spec_matches() == old(self).spec_matches().remove(p),
            final(self).spec_matches().len() == 0 && final(self).spec_matches() != old(self).spec_matches()
                ==> final(self).index is None,
            !search_hit(*old(self), *old(container), *msg_id, body_matches) ==> final(self).spec_matches()
                == old(self).spec_matches() && final(self).index == old(self).index && final(container).data()
                == old(container).data() && final(emit)@ == old(emit)@ && final(model)@ == old(model)@,
            search_hit(*old(self), *old(container), *msg_id, body_matches) && !has_match_id(
                old(self).spec_matches(),
                *msg_id,
            ) ==> r is None && final(self).spec_matches() == old(self).spec_matches() && final(self).index == old(
                self,
            ).index && final(container).data() == old(container).data() && final(emit)@ == old(emit)@
                && final(model)@ == old(model)@,
            forall|p: int|
                search_hit(*old(self), *old(container), *msg_id, body_matches) && #[trigger] first_with_id(
                    old(self).spec_matches(),
                    *msg_id,
                    p,
                ) ==> match_removed(*old(self), *final(self), *old(container), *final(container), old(emit)@, final(emit)@, old(model)@, final(model)@, old(model).target(), p),
            only_status_changed(old(container).data(), final(container).data()),
            exists|s: Seq<MessagesSignal>| search_only(s) && #[trigger] raised_all(old(emit)@, final(emit)@, s),
            exists|calls: Seq<ModelCall>|
                calls.len() <= 1 && #[trigger] after_calls(old(model)@, old(model).target(), calls) == final(model)@,
    {
        proof {
            lemma_raised_none(emit@);
            lemma_calls_none(model@, model.target());
            assert(search_only(Seq::<MessagesSignal>::empty()));
            assert(search_only(matches_set_signals()));
            assert(search_only(seq![MessagesSignal::SearchNumMatchesChanged]));
            assert(container.data().dom() =~= container.data().dom());
        }
        if !self.active {
            return Some(());
        }
        let m = self.msg_matches(msg_id, container, body_matches);
        match m {
            None => {
                return None;
            },
            Some(false) => {
                return Some(());
            },
            Some(true) => {},
        }
        let pos = match position_of(&self.matches, msg_id) {
            Some(p) => p,
            None => {
                return None;
            },
        };
        let ghost m_old = self.matches@;
        let ghost e0 = emit@;
        let ghost md0 = model@;
        let ghost c0 = *container;
        proof {
            assert forall|p: int| #[trigger] first_with_id(m_old, *msg_id, p) implies p == pos by {
                if p < pos {
                    assert(m_old[p].0.msg_id != *msg_id);
                }
                if pos < p {
                    assert(m_old[pos as int].0.msg_id == *msg_id);
                }
            }
        }
        self.matches.remove(pos);
        emit.search_num_matches_changed();
        let ghost e1 = emit@;
        proof {
            lemma_raised_one(e0, e1, MessagesSignal::SearchNumMatchesChanged);
        }
        if self.matches.len() == 0 {
            self.index = None;
            emit.search_index_changed();
            proof {
                lemma_raised_more(e0, e1, emit@, seq![MessagesSignal::SearchNumMatchesChanged], MessagesSignal::SearchIndexChanged);
                assert(seq![MessagesSignal::SearchNumMatchesChanged].push(MessagesSignal::SearchIndexChanged)
                    =~= matches_set_signals());
                assert(match_removed(*old(self), *self, c0, *container, e0, emit@, md0, model@, old(model).target(), pos as int));
            }
            return Some(());
        }
        match self.index {
            Some(ix) => {
                if pos <= ix {
                    let new_ix = ix.saturating_sub(1);
                    self.index = Some(new_ix);
                    emit.search_index_changed();
                    proof {
                        lemma_raised_more(e0, e1, emit@, seq![MessagesSignal::SearchNumMatchesChanged], MessagesSignal::SearchIndexChanged);
                        assert(seq![MessagesSignal::SearchNumMatchesChanged].push(MessagesSignal::SearchIndexChanged)
                            =~= matches_set_signals());
                    }
                    if new_ix >= self.matches.len() {
                        proof {
                            assert(match_removed(*old(self), *self, c0, *container, e0, emit@, md0, model@, old(model).target(), pos as int));
                        }
                        return None;
                    }
                    let msg = self.matches[new_ix].0;
                    match container.set_match_status(&msg.msg_id, MatchStatus::Focused) {
                        Some(()) => {
                            proof {
                                assert(container.data().dom() =~= c0.data().dom());
                                assert forall|k: MsgId| #[trigger] container.data().contains_key(k) implies container.data()[k]
                                    == (MsgData { match_status: container.data()[k].match_status, ..c0.data()[k] }) by {
                                    if k == msg.msg_id {
                                    }
                                }
                            }
                        },
                        None => {
                            proof {
                                assert(match_removed(*old(self), *self, c0, *container, e0, emit@, md0, model@, old(model).target(), pos as int));
                            }
                            return None;
                        },
                    }
                    let container_ix = match container.index_of(&msg) {
                        Some(i) => i,
                        None => {
                            proof {
                                assert(!(exists|ci: usize| found_at(c0.keys(), ci, msg.insertion_time))) by {
                                    if exists|ci: usize| found_at(c0.keys(), ci, msg.insertion_time) {
                                        let ci = choose|ci: usize| found_at(c0.keys(), ci, msg.insertion_time);
                                        assert(container.keys()[ci as int].insertion_time == msg.insertion_time);
                                    }
                                }
                                assert(match_removed(*old(self), *self, c0, *container, e0, emit@, md0, model@, old(model).target(), pos as int));
                            }
                            return None;
                        },
                    };
                    proof {
                        lemma_calls_push(md0, old(model).target(), Seq::<ModelCall>::empty(), ModelCall::DataChanged { first: container_ix, last: container_ix });
                        assert(Seq::<ModelCall>::empty().push(ModelCall::DataChanged { first: container_ix, last: container_ix }).len() <= 1);
                    }
                    model.data_changed(container_ix, container_ix);
                    proof {
                        assert(found_at(c0.keys(), container_ix, msg.insertion_time));
                        assert(match_removed(*old(self), *self, c0, *container, e0, emit@, md0, model@, old(model).target(), pos as int));
                    }
                } else {
                    proof {
                        assert(match_removed(*old(self), *self, c0, *container, e0, emit@, md0, model@, old(model).target(), pos as int));
                    }
                }
            },
            None => {
                proof {
                    assert(match_removed(*old(self), *self, c0, *container, e0, emit@, md0, model@, old(model).target(), pos as int));
                }
            },
        }
        Some(())
    }

    /// Adds the message with id `msg_id` (just inserted into the container at
    /// `model_ix`) to the matches when it matches and is not earlier than the last
    /// match, marking it matched and moving the focus along when it was at or
    /// past the new match. `body_matches` is what the pattern engine says of the
    /// message's body.
    pub fn try_insert_match(
        &mut self,
        msg_id: MsgId,
        model_ix: usize,
        body_matches: bool,
        container: &mut Container,
        emit: &mut MessagesEmitter,
        model: &mut MessagesList,
    ) -> (r: Option<()>)
        requires
            old(container).wf(),
            old(container).data().contains_key(msg_id) ==> exists|j: int|
                0 <= j < old(container).keys().len() && #[trigger] old(container).keys()[j].insertion_time
                    == old(container).data()[msg_id].time.insertion,
            old(self).spec_matches().len() < usize::MAX,
            old(self).index matches Some(i) ==> i < usize::MAX,
        ensures
            final(container).wf(),
            old(container).clean() ==> final(container).clean(),
            final(container).keys() == old(container).keys(),
            final(self).active == old(self).active,
            final(self).pattern == old(self).pattern,
            final(self).spec_start() == old(self).spec_start(),
            final(model).target() == old(model).target(),
            !old(container).data().contains_key(msg_id) && old(self).active ==> r is None,
            !old(self).active || (old(container).data().contains_key(msg_id) && old(self).pattern is Some
                && !(old(container).data()[msg_id].body.is_some() && body_matches)) ==> r is Some
                && final(self).spec_matches() == old(self).spec_matches() && final(self).index == old(
                self,
            ).index && final(container).data() == old(container).data(),
            final(self).spec_matches() != old(self).spec_matches() ==> {
                &&& old(container).data().contains_key(msg_id)
                &&& final(self).spec_matches() == old(self).spec_matches().push(
                    Match(
                        Message {
                            msg_id,
                            insertion_time: old(container).data()[msg_id].time.insertion,
                        },
                    ),
                )
                &&& final(container).data() == old(container).data().insert(
                    msg_id,
                    MsgData { match_status: MatchStatus::Matched, ..old(container).data()[msg_id] },
                )
                &&& match old(self).index {
                    Some(ix) => final(self).index == if old(self).spec_matches().len() <= ix {
                        Some(((ix + 1) % (final(self).spec_matches().len() as int)) as usize)
                    } else {
                        Some(ix)
                    },
                    None => final(self).index is None,
                }
            },
            !(search_hit(*old(self), *old(container), msg_id, body_matches) && joins_matches(
                old(self).spec_matches(),
                old(container).data()[msg_id].time.insertion,
            )) ==> final(self).spec_matches() == old(self).spec_matches() && final(self).index == old(
                self,
            ).index && final(container).data() == old(container).data() && final(emit)@ == old(emit)@
                && final(model)@ == old(model)@,
            search_hit(*old(self), *old(container), msg_id, body_matches) ==> r is Some,
            exists|calls: Seq<ModelCall>| #[trigger] after_calls(old(model)@, old(model).target(), calls) == final(model)@,
            exists|sg: Seq<MessagesSignal>| sg.len() <= 1 && search_only(sg) && #[trigger] raised_all(old(emit)@, final(emit)@, sg),
            search_hit(*old(self), *old(container), msg_id, body_matches) && joins_matches(
                old(self).spec_matches(),
                old(container).data()[msg_id].time.insertion,
            ) ==> {
                let pos = old(self).spec_matches().len();
                let moved = old(self).index matches Some(ix) && pos <= ix;
                &&& final(self).spec_matches() == old(self).spec_matches().push(
                    Match(Message { msg_id, insertion_time: old(container).data()[msg_id].time.insertion }),
                )
                &&& final(container).data() == old(container).data().insert(
                    msg_id,
                    MsgData { match_status: MatchStatus::Matched, ..old(container).data()[msg_id] },
                )
                &&& raised(old(emit)@, final(emit)@, MessagesSignal::SearchNumMatchesChanged)
                &&& final(model)@ == after_calls(
                    old(model)@,
                    old(model).target(),
                    seq![ModelCall::DataChanged { first: pos as usize, last: pos as usize }] + if moved {
                        seq![ModelCall::DataChanged { first: model_ix, last: model_ix }]
                    } else {
                        Seq::<ModelCall>::empty()
                    },
                )
            },
    {
        proof {
            lemma_calls_none(model@, model.target());
            lemma_raised_none(emit@);
            assert(search_only(Seq::<MessagesSignal>::empty()));
            assert(search_only(seq![MessagesSignal::SearchNumMatchesChanged]));
        }
        let ghost e0 = emit@;
        if !self.active {
            return Some(());
        }
        let m = self.msg_matches(&msg_id, container, body_matches);
        match m {
            None => {
                return None;
            },
            Some(false) => {
                return Some(());
            },
            Some(true) => {},
        }
        let time = match container.get_data(&msg_id) {
            Some(d) => d.time.insertion,
            None => {
                return None;
            },
        };
        let message = Message { msg_id, insertion_time: time };
        let ix = self.index;
        let last_time = if self.matches.len() > 0 {
            self.matches[self.matches.len() - 1].0.insertion_time
        } else {
            time
        };
        let pos = if last_time <= time {
            self.matches.len()
        } else {
            match container.binary_search(&message) {
                Ok(_) => {
                    return Some(());
                },
                Err(ix) => {
                    proof {
                        let k = choose|k: int|
                            0 <= k < container.keys().len() && #[trigger] container.keys()[k].insertion_time
                                == container.data()[msg_id].time.insertion;
                        assert(container.keys()[k].insertion_time == time);
                    }
                    ix
                },
            }
        };
        self.matches.insert(pos, Match(message));
        match container.set_match_status(&msg_id, MatchStatus::Matched) {
            Some(()) => {},
            None => {
                return None;
            },
        }
        model.data_changed(pos, pos);
        emit.search_num_matches_changed();
        proof {
            lemma_raised_one(e0, emit@, MessagesSignal::SearchNumMatchesChanged);
        }
        match ix {
            Some(ix) => {
                if pos <= ix {
                    self.index = Some((ix + 1) % self.matches.len());
                    model.data_changed(model_ix, model_ix);
                }
            },
            None => {},
        }
        proof {
            let x = seq![ModelCall::DataChanged { first: pos, last: pos }] + if (ix matches Some(i) && pos <= i) {
                seq![ModelCall::DataChanged { first: model_ix, last: model_ix }]
            } else {
                Seq::<ModelCall>::empty()
            };
            assert(after_calls(old(model)@, old(model).target(), x) == model@);
        }
        Some(())
    }
}

/// Whether the message at `i` of the keys matches: it has a body and the
/// pattern engine matched it.
pub open spec fn hit_at(keys: Seq<Message>, data: Map<MsgId, MsgData>, body_matches: Seq<bool>, i: int) -> bool {
    data[keys[i].msg_id].body.is_some() && body_matches[i]
}

/// The matches among the first `n` keys, in order.
pub open spec fn hits(keys: Seq<Message>, data: Map<MsgId, MsgData>, body_matches: Seq<bool>, n: nat) -> Seq<Match>
    decreases n,
{
    if n == 0 {
        Seq::empty()
    } else {
        let before = hits(keys, data, body_matches, (n - 1) as nat);
        if hit_at(keys, data, body_matches, n - 1) {
            before.push(Match(keys[n - 1]))
        } else {
            before
        }
    }
}

/// A search finds exactly the messages with a body that the pattern engine
/// says matches, each once, in the order of the list: the `j`-th match is the
/// key at some row `rows[j]`, the rows increase, and every matching row is one
/// of them.
pub proof fn a_search_finds_exactly_the_matching_messages(
    keys: Seq<Message>,
    data: Map<MsgId, MsgData>,
    body_matches: Seq<bool>,
    n: nat,
) -> (rows: Seq<int>)
    requires
        n <= keys.len(),
        n <= body_matches.len(),
    ensures
        rows.len() == hits(keys, data, body_matches, n).len(),
        forall|j: int|
            0 <= j < rows.len() ==> 0 <= #[trigger] rows[j] < n && hits(keys, data, body_matches, n)[j] == Match(
                keys[rows[j]],
            ) && data[keys[rows[j]].msg_id].body.is_some() && body_matches[rows[j]],
        forall|a: int, b: int| 0 <= a < b < rows.len() ==> #[trigger] rows[a] < #[trigger] rows[b],
        forall|i: int|
            0 <= i < n && data[keys[i].msg_id].body.is_some() && #[trigger] body_matches[i] ==> rows.contains(i),
    decreases n,
{
    if n == 0 {
        Seq::empty()
    } else {
        let prev = a_search_finds_exactly_the_matching_messages(keys, data, body_matches, (n - 1) as nat);
        let i = n - 1;
        if data[keys[i].msg_id].body.is_some() && body_matches[i] {
            let rows = prev.push(i);
            assert(rows[rows.len() - 1] == i);
            assert forall|k: int| 0 <= k < n && data[keys[k].msg_id].body.is_some() && #[trigger] body_matches[k]
                implies rows.contains(k) by {
                if k < n - 1 {
                    let w = choose|w: int| 0 <= w < prev.len() && prev[w] == k;
                    assert(rows[w] == k);
                }
            }
            rows
        } else {
            prev
        }
    }
}

/// A search marks a message matched exactly when it has a body that the
/// pattern engine says matches.
pub proof fn a_search_marks_the_matching_messages(keys: Seq<Message>, data: Map<MsgId, MsgData>, body_matches: Seq<bool>, i: int)
    ensures
        (status_for(keys, data, body_matches, i) == MatchStatus::Matched) <==> (data[keys[i].msg_id].body.is_some()
            && body_matches[i]),
        status_for(keys, data, body_matches, i) != MatchStatus::Focused,
{
}

/// The search status that the message at `i` gets from a search.
pub open spec fn status_for(keys: Seq<Message>, data: Map<MsgId, MsgData>, body_matches: Seq<bool>, i: int) -> MatchStatus {
    if hit_at(keys, data, body_matches, i) {
        MatchStatus::Matched
    } else {
        MatchStatus::NotMatched
    }
}

/// The first row from `i` on (below `n`) whose key's id has no data in `d`, or
/// `n` when there is none: where a run over the rows stops.
pub open spec fn gap_from(keys: Seq<Message>, d: Map<MsgId, MsgData>, i: int, n: int) -> int
    decreases n - i,
{
    if i >= n {
        n
    } else if !d.contains_key(keys[i].msg_id) {
        i
    } else {
        gap_from(keys, d, i + 1, n)
    }
}

/// Where a run over all the keys stops: the first row without data, or the end.
pub open spec fn first_gap(keys: Seq<Message>, d: Map<MsgId, MsgData>) -> int {
    gap_from(keys, d, 0, keys.len() as int)
}

/// The data after running the search over the first `n` rows, one by one: the
/// data under each row's id gets the status of that row (a later row with the
/// same id wins).
pub open spec fn searched(keys: Seq<Message>, d0: Map<MsgId, MsgData>, body_matches: Seq<bool>, n: nat) -> Map<
    MsgId,
    MsgData,
>
    decreases n,
{
    if n == 0 {
        d0
    } else {
        let d = searched(keys, d0, body_matches, (n - 1) as nat);
        let k = keys[n - 1].msg_id;
        if d.contains_key(k) {
            d.insert(k, MsgData { match_status: status_for(keys, d0, body_matches, n - 1), ..d[k] })
        } else {
            d
        }
    }
}

/// The calls that running the search over the first `n` rows sends: a data
/// change for each row whose status, as the run finds it, changes, in order.
pub open spec fn search_calls(keys: Seq<Message>, data: Map<MsgId, MsgData>, body_matches: Seq<bool>, n: nat) -> Seq<ModelCall>
    decreases n,
{
    if n == 0 {
        Seq::empty()
    } else {
        let before = search_calls(keys, data, body_matches, (n - 1) as nat);
        let d = searched(keys, data, body_matches, (n - 1) as nat);
        let k = keys[n - 1].msg_id;
        if d.contains_key(k) && d[k].match_status != status_for(keys, data, body_matches, n - 1) {
            before.push(ModelCall::DataChanged { first: (n - 1) as usize, last: (n - 1) as usize })
        } else {
            before
        }
    }
}

/// The data after clearing the statuses of the first `n` rows, one by one.
pub open spec fn cleared(keys: Seq<Message>, d0: Map<MsgId, MsgData>, n: nat) -> Map<MsgId, MsgData>
    decreases n,
{
    if n == 0 {
        d0
    } else {
        let d = cleared(keys, d0, (n - 1) as nat);
        let k = keys[n - 1].msg_id;
        if d.contains_key(k) && d[k].match_status.spec_is_match() {
            d.insert(k, MsgData { match_status: MatchStatus::NotMatched, ..d[k] })
        } else {
            d
        }
    }
}

/// The calls that clearing the statuses of the first `n` rows sends: a data
/// change for each row that was a match when the run reached it, in order.
pub open spec fn cleared_calls(keys: Seq<Message>, data: Map<MsgId, MsgData>, n: nat) -> Seq<ModelCall>
    decreases n,
{
    if n == 0 {
        Seq::empty()
    } else {
        let before = cleared_calls(keys, data, (n - 1) as nat);
        let d = cleared(keys, data, (n - 1) as nat);
        let k = keys[n - 1].msg_id;
        if d.contains_key(k) && d[k].match_status.spec_is_match() {
            before.push(ModelCall::DataChanged { first: (n - 1) as usize, last: (n - 1) as usize })
        } else {
            before
        }
    }
}

/// Searching or clearing keeps the ids held and every message's data but its
/// status.
pub proof fn lemma_runs_keep_data(keys: Seq<Message>, d0: Map<MsgId, MsgData>, body_matches: Seq<bool>, n: nat)
    ensures
        only_status_changed(d0, searched(keys, d0, body_matches, n)),
        only_status_changed(d0, cleared(keys, d0, n)),
    decreases n,
{
    if n > 0 {
        lemma_runs_keep_data(keys, d0, body_matches, (n - 1) as nat);
        let d = searched(keys, d0, body_matches, (n - 1) as nat);
        let e = cleared(keys, d0, (n - 1) as nat);
        assert(searched(keys, d0, body_matches, n).dom() =~= d.dom());
        assert(cleared(keys, d0, n).dom() =~= e.dom());
    }
}

/// Once every row's status is cleared, no message the data holds is a match,
/// when each held message has a row.
pub proof fn lemma_cleared_all(keys: Seq<Message>, d0: Map<MsgId, MsgData>, n: nat)
    requires
        n <= keys.len(),
    ensures
        forall|k: MsgId|
            #[trigger] cleared(keys, d0, n).contains_key(k) && (exists|i: int| 0 <= i < n && keys[i].msg_id == k)
                ==> !cleared(keys, d0, n)[k].match_status.spec_is_match(),
    decreases n,
{
    if n > 0 {
        lemma_cleared_all(keys, d0, (n - 1) as nat);
        let d = cleared(keys, d0, (n - 1) as nat);
        let c = cleared(keys, d0, n);
        assert forall|k: MsgId|
            #[trigger] c.contains_key(k) && (exists|i: int| 0 <= i < n && keys[i].msg_id == k)
                implies !c[k].match_status.spec_is_match() by {
            let i = choose|i: int| 0 <= i < n && keys[i].msg_id == k;
            if k != keys[n - 1].msg_id {
                assert(d.contains_key(k));
                assert(i < n - 1);
                assert(exists|i2: int| 0 <= i2 < n - 1 && keys[i2].msg_id == k);
            }
        }
    }
}

/// Runs the search over the container: each message gets status matched or not
/// matched (the view is told of each change), and the result lists the matching
/// messages in order. `body_matches[i]` is what the pattern engine says of the
/// body of the message at `i`. `None`, with nothing changed, when there is no
/// pattern, the search is off, or the pattern is empty.
pub fn apply_search(
    container: &mut Container,
    search: &SearchState,
    body_matches: &Vec<bool>,
    model: &mut MessagesList,
    emit: &mut MessagesEmitter,
) -> (r: Option<Vec<Match>>)
    requires
        old(container).wf(),
        body_matches@.len() == old(container).keys().len(),
    ensures
        final(container).wf(),
        old(container).clean() ==> final(container).clean(),
        final(container).keys() == old(container).keys(),
        final(model).target() == old(model).target(),
        only_status_changed(old(container).data(), final(container).data()),
        (search.pattern is None || !search.active || (search.pattern matches Some(p) && p.raw@.len()
            == 0)) ==> r is None && final(container).data() == old(container).data() && final(model)@ == old(
            model,
        )@ && final(emit)@ == old(emit)@,
        (search.pattern matches Some(p) && search.active && p.raw@.len() > 0) ==> {
            let keys = old(container).keys();
            let d0 = old(container).data();
            let g = first_gap(keys, d0);
            &&& final(container).data() == searched(keys, d0, body_matches@, g as nat)
            &&& final(model)@ == after_calls(old(model)@, old(model).target(), search_calls(keys, d0, body_matches@, g as nat))
            &&& g == keys.len() ==> (r matches Some(found) && found@ == hits(keys, d0, body_matches@, keys.len())
                && raised(old(emit)@, final(emit)@, MessagesSignal::SearchNumMatchesChanged))
            &&& g != keys.len() ==> r is None && final(emit)@ == old(emit)@
        },
        (search.pattern matches Some(p) && search.active && p.raw@.len() > 0) && old(container).clean() ==> {
            &&& first_gap(old(container).keys(), old(container).data()) == old(container).keys().len()
            &&& forall|i: int|
                0 <= i < old(container).keys().len() ==> #[trigger] final(container).data_at(i) == (MsgData {
                    match_status: status_for(old(container).keys(), old(container).data(), body_matches@, i),
                    ..old(container).data_at(i)
                })
        },
{
    let pattern = match &search.pattern {
        Some(p) => p,
        None => {
            return None;
        },
    };
    if !search.active || pattern.raw.as_str().is_empty() {
        return None;
    }
    let ghost keys = container.keys();
    let ghost d0 = container.data();
    let ghost clean0 = container_wf(keys, d0);
    let mut matches: Vec<Match> = Vec::new();
    let n = container.len();
    let mut ix: usize = 0;
    proof {
        lemma_calls_none(model@, model.target());
        assert(container.data().dom() =~= d0.dom());
    }
    while ix < n
        invariant
            container.wf(),
            container.keys() == keys,
            keys == old(container).keys(),
            d0 == old(container).data(),
            search.pattern matches Some(p) && search.active && p.raw@.len() > 0,
            clean0 == container_wf(keys, d0),
            clean0 ==> container.clean(),
            n == keys.len(),
            ix <= n,
            body_matches@.len() == n,
            model.target() == old(model).target(),
            emit@ == old(emit)@,
            container.data() == searched(keys, d0, body_matches@, ix as nat),
            model@ == after_calls(old(model)@, old(model).target(), search_calls(keys, d0, body_matches@, ix as nat)),
            matches@ == hits(keys, d0, body_matches@, ix as nat),
            gap_from(keys, d0, 0, n as int) == gap_from(keys, d0, ix as int, n as int),
            clean0 ==> forall|i: int|
                0 <= i < ix ==> #[trigger] container.data_at(i) == (MsgData {
                    match_status: status_for(keys, d0, body_matches@, i),
                    ..d0[keys[i].msg_id]
                }),
            clean0 ==> forall|i: int| ix <= i < n ==> #[trigger] container.data_at(i) == d0[keys[i].msg_id],
        decreases n - ix,
    {
        proof {
            lemma_runs_keep_data(keys, d0, body_matches@, ix as nat);
        }
        let msg = *container.get(ix).unwrap();
        let (old_status, matched) = match container.msg_data(ix) {
            Some(data) => (data.match_status, data.matches(body_matches[ix])),
            None => {
                proof {
                    assert(!d0.contains_key(keys[ix as int].msg_id));
                    assert(gap_from(keys, d0, ix as int, n as int) == ix);
                }
                return None;
            },
        };
        let status = if matched {
            MatchStatus::Matched
        } else {
            MatchStatus::NotMatched
        };
        let ghost before = container.data();
        let ghost k = keys[ix as int].msg_id;
        proof {
            assert(d0.contains_key(k));
            assert(before[k] == (MsgData { match_status: before[k].match_status, ..d0[k] }));
            assert(hit_at(keys, d0, body_matches@, ix as int) == matched);
            assert(status == status_for(keys, d0, body_matches@, ix as int));
            assert(gap_from(keys, d0, ix as int, n as int) == gap_from(keys, d0, ix + 1, n as int));
            if clean0 {
                assert(container.data_at(ix as int) == d0[keys[ix as int].msg_id]);
                assert forall|i: int| 0 <= i < n implies before[keys[i].msg_id] == (if i < ix {
                    MsgData { match_status: status_for(keys, d0, body_matches@, i), ..d0[keys[i].msg_id] }
                } else {
                    d0[keys[i].msg_id]
                }) by {
                    assert(container.data_at(i) == before[keys[i].msg_id]);
                }
            }
        }
        container.set_match_status(&msg.msg_id, status);
        proof {
            assert(container.data() == searched(keys, d0, body_matches@, (ix + 1) as nat));
            if clean0 {
                assert(container.data_at(ix as int) == MsgData {
                    match_status: status_for(keys, d0, body_matches@, ix as int),
                    ..d0[keys[ix as int].msg_id]
                });
                assert forall|i: int| 0 <= i < n && i != ix implies #[trigger] container.data_at(i) == before[keys[i].msg_id] by {
                    assert(keys[i].msg_id != keys[ix as int].msg_id);
                }
            }
        }
        if old_status != status {
            proof {
                lemma_calls_push(
                    old(model)@,
                    old(model).target(),
                    search_calls(keys, d0, body_matches@, ix as nat),
                    ModelCall::DataChanged { first: ix, last: ix },
                );
            }
            model.data_changed(ix, ix);
        }
        proof {
            let prev = search_calls(keys, d0, body_matches@, ix as nat);
            assert(search_calls(keys, d0, body_matches@, (ix + 1) as nat) == if old_status != status {
                prev.push(ModelCall::DataChanged { first: ix, last: ix })
            } else {
                prev
            });
        }
        if matched {
            matches.push(Match(msg));
        }
        ix = ix + 1;
    }
    proof {
        lemma_runs_keep_data(keys, d0, body_matches@, n as nat);
    }
    emit.search_num_matches_changed();
    Some(matches)
}

/// Clears every message's search status, telling the view of each one that
/// changes.
pub fn clear_search(container: &mut Container, model: &mut MessagesList) -> (r: Option<()>)
    requires
        old(container).wf(),
    ensures
        final(container).wf(),
        old(container).clean() ==> final(container).clean(),
        final(container).keys() == old(container).keys(),
        final(model).target() == old(model).target(),
        final(container).data().dom() == old(container).data().dom(),
        only_status_changed(old(container).data(), final(container).data()),
        final(container).data() == cleared(
            old(container).keys(),
            old(container).data(),
            first_gap(old(container).keys(), old(container).data()) as nat,
        ),
        final(model)@ == after_calls(
            old(model)@,
            old(model).target(),
            cleared_calls(
                old(container).keys(),
                old(container).data(),
                first_gap(old(container).keys(), old(container).data()) as nat,
            ),
        ),
        r is Some <==> first_gap(old(container).keys(), old(container).data()) == old(container).keys().len(),
        r is Some ==> forall|k: MsgId|
            #[trigger] final(container).data().contains_key(k) ==> final(container).data()[k].match_status
                == MatchStatus::NotMatched,
        old(container).clean() ==> r is Some && forall|i: int|
            0 <= i < old(container).keys().len() ==> #[trigger] final(container).data_at(i) == (MsgData {
                match_status: MatchStatus::NotMatched,
                ..old(container).data_at(i)
            }),
{
    let ghost keys = container.keys();
    let ghost d0 = container.data();
    let ghost clean0 = container_wf(keys, d0);
    let n = container.len();
    let mut ix: usize = 0;
    proof {
        lemma_calls_none(model@, model.target());
        assert(container.data().dom() =~= d0.dom());
    }
    while ix < n
        invariant
            container.wf(),
            container.keys() == keys,
            keys == old(container).keys(),
            d0 == old(container).data(),
            clean0 == container_wf(keys, d0),
            clean0 ==> container.clean(),
            n == keys.len(),
            ix <= n,
            model.target() == old(model).target(),
            container.data() == cleared(keys, d0, ix as nat),
            model@ == after_calls(old(model)@, old(model).target(), cleared_calls(keys, d0, ix as nat)),
            gap_from(keys, d0, 0, n as int) == gap_from(keys, d0, ix as int, n as int),
            clean0 ==> forall|i: int|
                0 <= i < ix ==> #[trigger] container.data_at(i) == (MsgData {
                    match_status: MatchStatus::NotMatched,
                    ..d0[keys[i].msg_id]
                }),
            clean0 ==> forall|i: int| ix <= i < n ==> #[trigger] container.data_at(i) == d0[keys[i].msg_id],
        decreases n - ix,
    {
        proof {
            lemma_runs_keep_data(keys, d0, Seq::<bool>::empty(), ix as nat);
        }
        let msg = *container.get(ix).unwrap();
        let was_match = match container.msg_data(ix) {
            Some(d) => d.match_status.is_match(),
            None => {
                proof {
                    assert(!d0.contains_key(keys[ix as int].msg_id));
                    assert(gap_from(keys, d0, ix as int, n as int) == ix);
                    lemma_runs_keep_data(keys, d0, Seq::<bool>::empty(), ix as nat);
                }
                return None;
            },
        };
        let ghost before = container.data();
        proof {
            assert(d0.contains_key(keys[ix as int].msg_id));
            assert(gap_from(keys, d0, ix as int, n as int) == gap_from(keys, d0, ix + 1, n as int));
            if clean0 {
                assert(container.data_at(ix as int) == d0[keys[ix as int].msg_id]);
                assert forall|i: int| 0 <= i < n implies before[keys[i].msg_id] == (if i < ix {
                    MsgData { match_status: MatchStatus::NotMatched, ..d0[keys[i].msg_id] }
                } else {
                    d0[keys[i].msg_id]
                }) by {
                    assert(container.data_at(i) == before[keys[i].msg_id]);
                }
            }
        }
        if was_match {
            container.set_match_status(&msg.msg_id, MatchStatus::NotMatched);
            proof {
                lemma_calls_push(
                    old(model)@,
                    old(model).target(),
                    cleared_calls(keys, d0, ix as nat),
                    ModelCall::DataChanged { first: ix, last: ix },
                );
            }
            model.data_changed(ix, ix);
        } else {
            proof {
                if clean0 {
                    assert(before[keys[ix as int].msg_id] == (MsgData {
                        match_status: MatchStatus::NotMatched,
                        ..d0[keys[ix as int].msg_id]
                    }));
                }
            }
        }
        proof {
            assert(container.data() == cleared(keys, d0, (ix + 1) as nat));
            let prev = cleared_calls(keys, d0, ix as nat);
            assert(cleared_calls(keys, d0, (ix + 1) as nat) == if was_match {
                prev.push(ModelCall::DataChanged { first: ix, last: ix })
            } else {
                prev
            });
            if clean0 {
                assert(d0.contains_key(keys[ix as int].msg_id));
                assert forall|i: int| 0 <= i < n && i != ix implies #[trigger] container.data_at(i) == before[keys[i].msg_id] by {
                    assert(keys[i].msg_id != keys[ix as int].msg_id);
                }
            }
        }
        ix = ix + 1;
    }
    proof {
        lemma_runs_keep_data(keys, d0, Seq::<bool>::empty(), n as nat);
        lemma_cleared_all(keys, d0, n as nat);
        assert forall|k: MsgId| #[trigger] container.data().contains_key(k) implies container.data()[k].match_status
            == MatchStatus::NotMatched by {
            container.lemma_held_is_keyed(k);
            let i = choose|i: int| 0 <= i < keys.len() && #[trigger] keys[i].msg_id == k && keys[i].insertion_time
                == container.data()[k].time.insertion;
            assert(exists|i2: int| 0 <= i2 < n && keys[i2].msg_id == k);
        }
    }
    Some(())
}

/// The search of the classic message list: a pattern that is always there,
/// whether the search is on, and the row it is at.
pub struct SearchMachine {
    pub pattern: PatternState,
    pub active: bool,
    pub cursor: Option<usize>,
}

impl SearchMachine {
    /// An inactive search with an empty normal-mode pattern and no cursor.
    pub fn new() -> (s: SearchMachine)
        ensures
            s.pattern.raw@.len() == 0,
            !s.pattern.regex,
            !s.active,
            s.cursor is None,
    {
        SearchMachine { pattern: PatternState { raw: String::new(), regex: false }, active: false, cursor: None }
    }

    /// Whether the pattern is read as a regular expression.
    pub fn is_regex(&self) -> (r: bool)
        ensures
            r == self.pattern.regex,
    {
        self.pattern.regex
    }

    /// Switches the pattern to regular-expression mode or back. Asking for the
    /// mode it has changes nothing; otherwise the switch takes place when the
    /// text compiles in the new mode (`compiles`), and fails otherwise.
    pub fn set_regex(&mut self, use_regex: bool, compiles: bool) -> (r: Result<SearchChanged, PatternError>)
        ensures
            final(self).active == old(self).active,
            final(self).cursor == old(self).cursor,
            final(self).pattern.raw == old(self).pattern.raw,
            use_regex == old(self).pattern.regex ==> r == Ok::<SearchChanged, PatternError>(
                SearchChanged::NotChanged,
            ) && final(self).pattern == old(self).pattern,
            use_regex != old(self).pattern.regex && compiles ==> r == Ok::<SearchChanged, PatternError>(
                SearchChanged::Changed,
            ) && final(self).pattern.regex == use_regex,
            use_regex != old(self).pattern.regex && !compiles ==> r is Err && final(self).pattern
                == old(self).pattern,
    {
        if use_regex == self.pattern.regex {
            return Ok(SearchChanged::NotChanged);
        }
        if !compiles {
            return Err(PatternError);
        }
        self.pattern.regex = use_regex;
        Ok(SearchChanged::Changed)
    }
}

} // verus!
