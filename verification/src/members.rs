//! The members of one conversation, with a filter. What is known of each user
//! lives in a cache outside the list; the functions that need it take what the
//! cache or the pattern engine says. Changes are told to the view through two
//! outboxes.
use crate::implementation::users::FilterSignal;
use crate::messages::search::PatternState;
use crate::signal::ModelCall;
use crate::types::{ConversationId, UserId};
use crate::users::{cached_through, passes, User, UserData};
use vstd::prelude::*;

verus! {

/// An update for the members of a conversation.
pub enum MemberUpdate {
    /// The answer to an invitation: who, and whether they accepted.
    ReqResp(UserId, bool),
}

/// The members of one conversation.
pub struct Members {
    pub signals: Vec<FilterSignal>,
    pub calls: Vec<ModelCall>,
    pub filter: Option<PatternState>,
    pub filter_regex: bool,
    pub list: Vec<User>,
    pub conversation_id: Option<ConversationId>,
}

impl Members {
    /// An empty list with an empty normal-mode filter, bound to no conversation.
    pub fn new() -> (m: Members)
        ensures
            m.list@.len() == 0,
            m.filter matches Some(f) && f.raw@.len() == 0 && !f.regex,
            !m.filter_regex,
            m.conversation_id is None,
            m.signals@.len() == 0,
            m.calls@.len() == 0,
    {
        Members {
            signals: Vec::new(),
            calls: Vec::new(),
            filter: Some(PatternState { raw: String::new(), regex: false }),
            filter_regex: false,
            list: Vec::new(),
            conversation_id: None,
        }
    }

    /// The id of the member at `row_index`; `None` past the end.
    pub fn user_id(&self, row_index: usize) -> (id: Option<&str>)
        ensures
            row_index >= self.list@.len() ==> id is None,
            row_index < self.list@.len() ==> crate::types::some_text(id, self.list@[row_index as int].id@),
    {
        if row_index < self.list.len() {
            Some(self.list[row_index].id.as_str())
        } else {
            None
        }
    }

    /// The name of the member at `row_index`, `cached` being what the cache
    /// holds of them: empty past the end, the id when nothing is cached.
    pub fn name(&self, row_index: usize, cached: Option<&UserData>) -> (name: String)
        ensures
            row_index >= self.list@.len() ==> name@.len() == 0,
            row_index < self.list@.len() && cached is None ==> name@ == self.list@[row_index as int].id@,
            row_index < self.list@.len() && cached is Some ==> name@ == cached.unwrap().name@,
    {
        if row_index >= self.list.len() {
            return String::new();
        }
        match cached {
            Some(d) => d.name.clone(),
            None => self.list[row_index].id.clone(),
        }
    }

    /// Whether the member at `row_index` passes the filter; `true` past the end.
    pub fn matched(&self, row_index: usize) -> (m: bool)
        ensures
            m == (row_index >= self.list@.len() || self.list@[row_index as int].matched),
    {
        if row_index < self.list.len() {
            self.list[row_index].matched
        } else {
            true
        }
    }

    /// The filter's text; empty without a filter.
    pub fn filter(&self) -> (f: &str)
        ensures
            match self.filter {
                Some(p) => f@ == p.raw@,
                None => f@ == ""@,
            },
    {
        match &self.filter {
            Some(p) => p.raw.as_str(),
            None => "",
        }
    }

    /// Shows every member (telling the view of each row that was hidden) and
    /// empties the filter's text, telling the view, when there is a filter.
    pub fn clear_filter(&mut self)
        ensures
            final(self).list@.len() == old(self).list@.len(),
            forall|i: int| #![trigger final(self).list@[i]] 0 <= i < old(self).list@.len() ==> final(self).list@[i].id@
                == old(self).list@[i].id@ && final(self).list@[i].matched,
            final(self).filter_regex == old(self).filter_regex,
            final(self).conversation_id == old(self).conversation_id,
            old(self).filter is None ==> final(self).filter is None && final(self).signals == old(self).signals,
            old(self).filter matches Some(p) ==> final(self).filter matches Some(q) && q.raw@.len() == 0 && q.regex
                == p.regex && final(self).signals@ == old(self).signals@.push(FilterSignal::FilterChanged),
    {
        let n = self.list.len();
        let mut i: usize = 0;
        while i < n
            invariant
                n == self.list@.len(),
                n == old(self).list@.len(),
                i <= n,
                forall|j: int| #![trigger self.list@[j]] 0 <= j < n ==> self.list@[j].id@ == old(self).list@[j].id@,
                forall|j: int| #![trigger self.list@[j]] 0 <= j < i ==> self.list@[j].matched,
                self.filter == old(self).filter,
                self.filter_regex == old(self).filter_regex,
                self.signals == old(self).signals,
                self.conversation_id == old(self).conversation_id,
            decreases n - i,
        {
            if !self.list[i].matched {
                let id = self.list[i].id.clone();
                let ghost l0 = self.list@;
                self.list.set(i, User { id, matched: true });
                self.calls.push(ModelCall::DataChanged { first: i, last: i });
                proof {
                    assert forall|j: int| #![trigger self.list@[j]] 0 <= j < n implies self.list@[j].id@ == old(self).list@[j].id@
                        && (j < i + 1 ==> self.list@[j].matched) by {
                        if j != i {
                            assert(self.list@[j] == l0[j]);
                        }
                    }
                }
            }
            i = i + 1;
        }
        match &self.filter {
            Some(p) => {
                let regex = p.regex;
                self.filter = Some(PatternState { raw: String::new(), regex });
                self.signals.push(FilterSignal::FilterChanged);
            },
            None => {},
        }
    }

    /// Matches every member against the filter, telling the view of each row
    /// reached: `outcomes[i]` is what the pattern engine says of the cached
    /// entry of row `i`, `None` when it is not cached, which ends the pass. A
    /// member passes when there is no filter.
    pub fn inner_filter(&mut self, outcomes: &Vec<Option<bool>>)
        requires
            outcomes@.len() == old(self).list@.len(),
        ensures
            final(self).list@.len() == old(self).list@.len(),
            forall|i: int| #![trigger final(self).list@[i]] 0 <= i < old(self).list@.len() ==> final(self).list@[i].id@
                == old(self).list@[i].id@ && (if cached_through(outcomes@, i) {
                final(self).list@[i].matched == passes(old(self).filter, outcomes@[i].unwrap())
            } else {
                final(self).list@[i].matched == old(self).list@[i].matched
            }),
            final(self).filter == old(self).filter,
            final(self).filter_regex == old(self).filter_regex,
            final(self).signals == old(self).signals,
            final(self).conversation_id == old(self).conversation_id,
    {
        let n = self.list.len();
        let mut i: usize = 0;
        while i < n
            invariant
                n == self.list@.len(),
                n == old(self).list@.len(),
                outcomes@.len() == n,
                i <= n,
                cached_through(outcomes@, i - 1),
                forall|j: int| #![trigger self.list@[j]] 0 <= j < n ==> self.list@[j].id@ == old(self).list@[j].id@,
                forall|j: int| #![trigger self.list@[j]] 0 <= j < i ==> self.list@[j].matched == passes(old(self).filter, outcomes@[j].unwrap()),
                forall|j: int| #![trigger self.list@[j]] i <= j < n ==> self.list@[j].matched == old(self).list@[j].matched,
                self.filter == old(self).filter,
                self.filter_regex == old(self).filter_regex,
                self.signals == old(self).signals,
                self.conversation_id == old(self).conversation_id,
            decreases n - i,
        {
            let o = match outcomes[i] {
                Some(o) => o,
                None => {
                    proof {
                        assert forall|j: int| i <= j < n implies !cached_through(outcomes@, j) by {
                            assert(outcomes@[i as int] is None);
                        }
                    }
                    return;
                },
            };
            let matched = match &self.filter {
                Some(_) => o,
                None => true,
            };
            let id = self.list[i].id.clone();
            let ghost l0 = self.list@;
            self.list.set(i, User { id, matched });
            self.calls.push(ModelCall::DataChanged { first: i, last: i });
            proof {
                assert forall|j: int| #![trigger self.list@[j]] 0 <= j < n implies self.list@[j].id@ == old(self).list@[j].id@
                    && (j < i + 1 ==> self.list@[j].matched == passes(old(self).filter, outcomes@[j].unwrap()))
                    && (j >= i + 1 ==> self.list@[j].matched == old(self).list@[j].matched) by {
                    if j != i {
                        assert(self.list@[j] == l0[j]);
                    } else {
                        assert(outcomes@[i as int] == Some(o));
                    }
                }
                assert forall|j: int| 0 <= j <= i implies #[trigger] outcomes@[j] is Some by {
                    if j < i {
                        assert(cached_through(outcomes@, i - 1));
                    }
                }
            }
            i = i + 1;
        }
    }

    /// Sets the filter text: an empty one clears the filter. Otherwise the
    /// text goes into the filter, keeping its mode, when it compiles
    /// (`compiles`); without a filter it becomes a regular-expression filter
    /// when it compiles as one, and there is no filter otherwise. The view
    /// hears of the filter and the members are matched again.
    pub fn set_filter(&mut self, pattern: String, compiles: bool, outcomes: &Vec<Option<bool>>)
        requires
            outcomes@.len() == old(self).list@.len(),
        ensures
            final(self).list@.len() == old(self).list@.len(),
            final(self).conversation_id == old(self).conversation_id,
            pattern@.len() > 0 && old(self).filter is Some && !compiles ==> *final(self) == *old(self),
            pattern@.len() > 0 && (old(self).filter is None || compiles) ==> {
                &&& final(self).signals@ == old(self).signals@.push(FilterSignal::FilterChanged)
                &&& old(self).filter matches Some(p) ==> final(self).filter == Some((PatternState { raw: pattern, regex: p.regex }))
                &&& old(self).filter is None ==> (compiles ==> final(self).filter == Some((PatternState { raw: pattern, regex: true })))
                    && (!compiles ==> final(self).filter is None)
            },
    {
        if pattern.as_str().is_empty() {
            self.clear_filter();
            return;
        }
        match &self.filter {
            Some(p) => {
                if !compiles {
                    return;
                }
                let regex = p.regex;
                self.filter = Some(PatternState { raw: pattern, regex });
            },
            None => {
                if compiles {
                    self.filter = Some(PatternState { raw: pattern, regex: true });
                }
            },
        }
        self.signals.push(FilterSignal::FilterChanged);
        self.inner_filter(outcomes);
    }

    /// Switches the filter to regular-expression mode or back when its text
    /// compiles in that mode (`compiles`; otherwise the filter is dropped and
    /// nothing else changes). Without
    /// a filter only the mode flag changes. The view hears of the mode and the
    /// members are matched again.
    pub fn set_filter_regex(&mut self, use_regex: bool, compiles: bool, outcomes: &Vec<Option<bool>>)
        requires
            outcomes@.len() == old(self).list@.len(),
        ensures
            final(self).list@.len() == old(self).list@.len(),
            final(self).conversation_id == old(self).conversation_id,
            old(self).filter is Some && !compiles ==> *final(self) == (Members { filter: None, ..*old(self) }),
            old(self).filter is None || compiles ==> {
                &&& final(self).filter_regex == use_regex
                &&& final(self).signals@ == old(self).signals@.push(FilterSignal::FilterRegexChanged)
                &&& old(self).filter matches Some(p) ==> final(self).filter == Some((PatternState { raw: p.raw, regex: use_regex }))
                &&& old(self).filter is None ==> final(self).filter is None
            },
    {
        if self.filter.is_some() && !compiles {
            self.filter = None;
            return;
        }
        match &mut self.filter {
            Some(p) => {
                p.regex = use_regex;
            },
            None => {},
        }
        self.filter_regex = use_regex;
        self.signals.push(FilterSignal::FilterRegexChanged);
        self.inner_filter(outcomes);
    }

    /// Toggles the filter mode and returns the new mode. The flag always takes
    /// the new mode and the view hears of it once; a filter whose text does not
    /// compile in the new mode (`compiles`) is dropped first, as
    /// `set_filter_regex` drops it, and the members are matched again.
    pub fn toggle_filter_regex(&mut self, compiles: bool, outcomes: &Vec<Option<bool>>) -> (toggled: bool)
        requires
            outcomes@.len() == old(self).list@.len(),
        ensures
            toggled == !old(self).filter_regex,
            final(self).filter_regex == toggled,
            final(self).list@.len() == old(self).list@.len(),
            final(self).conversation_id == old(self).conversation_id,
            final(self).signals@ == old(self).signals@.push(FilterSignal::FilterRegexChanged),
            old(self).filter is None || !compiles ==> final(self).filter is None,
            old(self).filter is Some && compiles ==> final(self).filter == Some((PatternState { raw: old(self).filter.unwrap().raw, regex: toggled })),
    {
        let toggled = !self.filter_regex;
        self.set_filter_regex(toggled, compiles, outcomes);
        if self.filter_regex != toggled {
            self.set_filter_regex(toggled, compiles, outcomes);
        }
        toggled
    }

    /// Appends the user `user_id` that storage just made a member (`stored`),
    /// telling the view; `data_matches` is what the pattern engine says of
    /// their cached entry (`None` when not cached). `false`, with nothing
    /// changed, without a conversation, when storage failed or nothing is cached.
    pub fn add_to_conversation(&mut self, user_id: UserId, stored: bool, data_matches: Option<bool>) -> (ok: bool)
        ensures
            ok == (old(self).conversation_id is Some && stored && data_matches is Some),
            !ok ==> *final(self) == *old(self),
            ok ==> {
                let n = old(self).list@.len() as usize;
                &&& final(self).list@ == old(self).list@.push(
                    (User { id: user_id, matched: passes(old(self).filter, data_matches.unwrap()) }),
                )
                &&& final(self).calls@ == old(self).calls@ + seq![
                    ModelCall::BeginInsertRows { first: n, last: n },
                    ModelCall::EndInsertRows,
                ]
            },
    {
        if self.conversation_id.is_none() || !stored {
            return false;
        }
        let m = match data_matches {
            Some(m) => m,
            None => {
                return false;
            },
        };
        let matched = match &self.filter {
            Some(_) => m,
            None => true,
        };
        let n = self.list.len();
        self.calls.push(ModelCall::BeginInsertRows { first: n, last: n });
        self.list.push(User { id: user_id, matched });
        self.calls.push(ModelCall::EndInsertRows);
        true
    }

    /// Whether storage removed the member at `index` (`removed`): the list
    /// must be bound and the row must exist. The rows stay as they are.
    pub fn remove_from_conversation_by_index(&self, index: u64, removed: bool) -> (ok: bool)
        ensures
            ok == (self.conversation_id is Some && (index as usize) < self.list@.len() && removed),
    {
        if self.conversation_id.is_none() {
            return false;
        }
        let ix = index as usize;
        if ix >= self.list.len() {
            return false;
        }
        removed
    }

    /// Takes in an update: an accepted invitation makes the invitee a row
    /// (without telling the view), shown as the filter says of their cached
    /// entry (`data_matches`; the answer is passed over when they are not
    /// cached); a refused one changes nothing.
    pub fn process_update(&mut self, update: &MemberUpdate, data_matches: Option<bool>)
        ensures
            match update {
                MemberUpdate::ReqResp(uid, accepted) => if *accepted && data_matches is Some {
                    final(self).list@ == old(self).list@.push(
                        (User { id: *uid, matched: passes(old(self).filter, data_matches.unwrap()) }),
                    ) && final(self).calls == old(self).calls && final(self).filter == old(self).filter
                } else {
                    *final(self) == *old(self)
                },
            },
    {
        match update {
            MemberUpdate::ReqResp(uid, accepted) => {
                if !*accepted {
                    return;
                }
                let m = match data_matches {
                    Some(m) => m,
                    None => {
                        return;
                    },
                };
                let matched = match &self.filter {
                    Some(_) => m,
                    None => true,
                };
                self.list.push(User { id: uid.clone(), matched });
            },
        }
    }

    /// Makes the members that storage read for the conversation (`members`)
    /// the rows, all shown, telling the view.
    pub fn set_conversation_id(&mut self, members: Vec<UserData>)
        ensures
            final(self).list@.len() == members@.len(),
            forall|i: int| #![trigger final(self).list@[i]] 0 <= i < members@.len() ==> final(self).list@[i].id@ == members@[i].id@
                && final(self).list@[i].matched,
            final(self).calls@ == old(self).calls@ + seq![
                ModelCall::BeginInsertRows { first: 0, last: if members@.len() == 0 { 0 } else { (members@.len() - 1) as usize } },
                ModelCall::EndInsertRows,
            ],
            final(self).conversation_id == old(self).conversation_id,
            final(self).filter == old(self).filter,
    {
        let last = members.len().saturating_sub(1);
        self.calls.push(ModelCall::BeginInsertRows { first: 0, last });
        let mut list: Vec<User> = Vec::new();
        let mut i: usize = 0;
        while i < members.len()
            invariant
                i <= members@.len(),
                list@.len() == i,
                forall|j: int| #![trigger list@[j]] 0 <= j < i ==> list@[j].id@ == members@[j].id@ && list@[j].matched,
            decreases members@.len() - i,
        {
            let uid = members[i].id.clone();
            let ghost l0 = list@;
            list.push(User { id: uid, matched: true });
            proof {
                assert forall|j: int| #![trigger list@[j]] 0 <= j < i + 1 implies list@[j].id@ == members@[j].id@
                    && list@[j].matched by {
                    if j < i {
                        assert(list@[j] == l0[j]);
                    }
                }
            }
            i = i + 1;
        }
        self.list = list;
        self.calls.push(ModelCall::EndInsertRows);
    }

    /// The number of members.
    pub fn row_count(&self) -> (n: usize)
        ensures
            n == self.list@.len(),
    {
        self.list.len()
    }
}

} // verus!
