//! The classic list of conversations, newest first, with a filter. Changes are
//! told to the view through two outboxes.
use super::conversation::ConversationMeta;
use super::users::{all_rows_changed, FilterSignal};
use crate::messages::search::PatternState;
use crate::signal::ModelCall;
use crate::types::ConversationId;
use vstd::prelude::*;

verus! {

/// A row: a conversation's metadata, and whether the filter lets it through.
pub struct Conversation {
    pub inner: ConversationMeta,
    pub matched: bool,
}

/// The classic list of conversations.
pub struct Conversations {
    pub signals: Vec<FilterSignal>,
    pub calls: Vec<ModelCall>,
    pub filter: PatternState,
    pub filter_regex: bool,
    pub list: Vec<Conversation>,
}

/// The rows `list` with their `matched` flags set to `flags`.
pub open spec fn flagged(before: Seq<Conversation>, after: Seq<Conversation>, flags: spec_fn(int) -> bool) -> bool {
    &&& after.len() == before.len()
    &&& forall|i: int| #![trigger after[i]] 0 <= i < before.len() ==> after[i].inner == before[i].inner && after[i].matched == flags(i)
}

/// Sets the `matched` flag of row `i` to `flags[i]`, for every row.
fn set_flags(list: &mut Vec<Conversation>, flags: &Vec<bool>)
    requires
        flags@.len() == old(list)@.len(),
    ensures
        flagged(old(list)@, final(list)@, |i: int| flags@[i]),
{
    let ghost before = list@;
    let mut rebuilt: Vec<Conversation> = Vec::new();
    let mut rest: Vec<Conversation> = Vec::new();
    std::mem::swap(&mut rest, list);
    let n = flags.len();
    let mut i: usize = 0;
    while i < n
        invariant
            n == flags@.len(),
            n == before.len(),
            i <= n,
            rest@ == before.subrange(i as int, n as int),
            rebuilt@.len() == i,
            forall|j: int| #![trigger rebuilt@[j]] 0 <= j < i ==> rebuilt@[j].inner == before[j].inner && rebuilt@[j].matched == flags@[j],
        decreases n - i,
    {
        let c = rest.remove(0);
        proof {
            assert(c == before[i as int]);
        }
        let ghost r0 = rebuilt@;
        rebuilt.push(Conversation { inner: c.inner, matched: flags[i] });
        proof {
            assert forall|j: int| #![trigger rebuilt@[j]] 0 <= j < i + 1 implies rebuilt@[j].inner == before[j].inner
                && rebuilt@[j].matched == flags@[j] by {
                if j < i {
                    assert(rebuilt@[j] == r0[j]);
                }
            }
        }
        i = i + 1;
    }
    *list = rebuilt;
}

impl Conversations {
    /// The conversations that storage holds, all shown, with an empty
    /// normal-mode filter.
    pub fn new(all: Vec<ConversationMeta>) -> (c: Conversations)
        ensures
            c.list@.len() == all@.len(),
            forall|i: int| #![trigger c.list@[i]] 0 <= i < all@.len() ==> c.list@[i].inner == all@[i] && c.list@[i].matched,
            c.filter.raw@.len() == 0 && !c.filter.regex,
            !c.filter_regex,
            c.signals@.len() == 0,
            c.calls@.len() == 0,
    {
        let n = all.len();
        let mut flags: Vec<bool> = Vec::new();
        let mut i: usize = 0;
        while i < n
            invariant
                i <= n,
                flags@.len() == i,
                forall|j: int| 0 <= j < i ==> #[trigger] flags@[j],
            decreases n - i,
        {
            flags.push(true);
            i = i + 1;
        }
        let mut list: Vec<Conversation> = Vec::new();
        let mut all = all;
        let ghost metas = all@;
        let mut k: usize = 0;
        while k < n
            invariant
                n == metas.len(),
                k <= n,
                all@ == metas.subrange(k as int, n as int),
                list@.len() == k,
                forall|j: int| #![trigger list@[j]] 0 <= j < k ==> list@[j].inner == metas[j] && list@[j].matched,
            decreases n - k,
        {
            let m = all.remove(0);
            let ghost l0 = list@;
            list.push(Conversation { inner: m, matched: true });
            proof {
                assert forall|j: int| #![trigger list@[j]] 0 <= j < k + 1 implies list@[j].inner == metas[j] && list@[j].matched by {
                    if j < k {
                        assert(list@[j] == l0[j]);
                    }
                }
            }
            k = k + 1;
        }
        Conversations {
            signals: Vec::new(),
            calls: Vec::new(),
            filter: PatternState { raw: String::new(), regex: false },
            filter_regex: false,
            list,
        }
    }

    /// The number of conversations.
    pub fn row_count(&self) -> (n: usize)
        ensures
            n == self.list@.len(),
    {
        self.list.len()
    }

    /// The color of the conversation at `index`.
    pub fn color(&self, index: usize) -> (c: u32)
        requires
            index < self.list@.len(),
        ensures
            c == self.list@[index as int].inner.color,
    {
        self.list[index].inner.color
    }

    /// The id of the conversation at `index`.
    pub fn conversation_id(&self, index: usize) -> (c: &ConversationId)
        requires
            index < self.list@.len(),
        ensures
            *c == self.list@[index as int].inner.conversation_id,
    {
        &self.list[index].inner.conversation_id
    }

    /// Whether the conversation at `index` is muted.
    pub fn muted(&self, index: usize) -> (m: bool)
        requires
            index < self.list@.len(),
        ensures
            m == self.list@[index as int].inner.muted,
    {
        self.list[index].inner.muted
    }

    /// The picture of the conversation at `index`.
    pub fn picture(&self, index: usize) -> (p: Option<&str>)
        requires
            index < self.list@.len(),
        ensures
            crate::types::shows_text(p, self.list@[index as int].inner.picture),
    {
        match &self.list[index].inner.picture {
            Some(p) => Some(p.as_str()),
            None => None,
        }
    }

    /// The title of the conversation at `index`.
    pub fn title(&self, index: usize) -> (t: Option<&str>)
        requires
            index < self.list@.len(),
        ensures
            crate::types::shows_text(t, self.list@[index as int].inner.title),
    {
        match &self.list[index].inner.title {
            Some(t) => Some(t.as_str()),
            None => None,
        }
    }

    /// Whether the conversation at `index` is a pairwise one.
    pub fn pairwise(&self, index: usize) -> (p: bool)
        requires
            index < self.list@.len(),
        ensures
            p == self.list@[index as int].inner.pairwise,
    {
        self.list[index].inner.pairwise
    }

    /// Replaces the metadata of the row at `index` by `meta`.
    fn set_meta(&mut self, index: usize, meta: ConversationMeta)
        requires
            index < old(self).list@.len(),
        ensures
            final(self).list@ == old(self).list@.update(
                index as int,
                (Conversation { inner: meta, matched: old(self).list@[index as int].matched }),
            ),
            final(self).calls == old(self).calls,
            final(self).signals == old(self).signals,
            final(self).filter == old(self).filter,
            final(self).filter_regex == old(self).filter_regex,
    {
        let matched = self.list[index].matched;
        self.list.set(index, Conversation { inner: meta, matched });
    }

    /// Sets the color of the conversation at `index` once storage did
    /// (`stored`); whether it did.
    pub fn set_color(&mut self, index: usize, color: u32, stored: bool) -> (ok: bool)
        requires
            index < old(self).list@.len(),
        ensures
            ok == stored,
            !ok ==> *final(self) == *old(self),
            ok ==> final(self).list@ == old(self).list@.update(
                index as int,
                (Conversation { inner: ConversationMeta { color, ..old(self).list@[index as int].inner }, ..old(self).list@[index as int] }),
            ),
    {
        if !stored {
            return false;
        }
        let c = &self.list[index].inner;
        let meta = ConversationMeta {
            conversation_id: c.conversation_id,
            title: c.title.clone(),
            picture: c.picture.clone(),
            color,
            muted: c.muted,
            pairwise: c.pairwise,
        };
        self.set_meta(index, meta);
        true
    }

    /// Sets whether the conversation at `index` is muted once storage did
    /// (`stored`); whether it did.
    pub fn set_muted(&mut self, index: usize, muted: bool, stored: bool) -> (ok: bool)
        requires
            index < old(self).list@.len(),
        ensures
            ok == stored,
            !ok ==> *final(self) == *old(self),
            ok ==> final(self).list@ == old(self).list@.update(
                index as int,
                (Conversation { inner: ConversationMeta { muted, ..old(self).list@[index as int].inner }, ..old(self).list@[index as int] }),
            ),
    {
        if !stored {
            return false;
        }
        let c = &self.list[index].inner;
        let meta = ConversationMeta {
            conversation_id: c.conversation_id,
            title: c.title.clone(),
            picture: c.picture.clone(),
            color: c.color,
            muted,
            pairwise: c.pairwise,
        };
        self.set_meta(index, meta);
        true
    }

    /// Sets the picture of the conversation at `index` once storage did
    /// (`stored`); whether it did.
    pub fn set_picture(&mut self, index: usize, picture: Option<String>, stored: bool) -> (ok: bool)
        requires
            index < old(self).list@.len(),
        ensures
            ok == stored,
            !ok ==> *final(self) == *old(self),
            ok ==> final(self).list@ == old(self).list@.update(
                index as int,
                (Conversation { inner: ConversationMeta { picture, ..old(self).list@[index as int].inner }, ..old(self).list@[index as int] }),
            ),
    {
        if !stored {
            return false;
        }
        let c = &self.list[index].inner;
        let meta = ConversationMeta {
            conversation_id: c.conversation_id,
            title: c.title.clone(),
            picture,
            color: c.color,
            muted: c.muted,
            pairwise: c.pairwise,
        };
        self.set_meta(index, meta);
        true
    }

    /// Sets the title of the conversation at `index` once storage did
    /// (`stored`); whether it did.
    pub fn set_title(&mut self, index: usize, title: Option<String>, stored: bool) -> (ok: bool)
        requires
            index < old(self).list@.len(),
        ensures
            ok == stored,
            !ok ==> *final(self) == *old(self),
            ok ==> final(self).list@ == old(self).list@.update(
                index as int,
                (Conversation { inner: ConversationMeta { title, ..old(self).list@[index as int].inner }, ..old(self).list@[index as int] }),
            ),
    {
        if !stored {
            return false;
        }
        let c = &self.list[index].inner;
        let meta = ConversationMeta {
            conversation_id: c.conversation_id,
            title,
            picture: c.picture.clone(),
            color: c.color,
            muted: c.muted,
            pairwise: c.pairwise,
        };
        self.set_meta(index, meta);
        true
    }

    /// Puts the conversation that storage just created (`meta`, `None` when
    /// that failed) first, shown as the filter says (`matched`), telling the
    /// view; its id, or `None` when storage failed.
    pub fn add_conversation(&mut self, meta: Option<ConversationMeta>, matched: bool) -> (id: Option<ConversationId>)
        ensures
            meta is None ==> id is None && *final(self) == *old(self),
            meta matches Some(m) ==> {
                &&& id == Some(m.conversation_id)
                &&& final(self).list@ == seq![(Conversation { inner: m, matched })] + old(self).list@
                &&& final(self).calls@ == old(self).calls@ + seq![
                    ModelCall::BeginInsertRows { first: 0, last: 0 },
                    ModelCall::EndInsertRows,
                ]
                &&& final(self).signals == old(self).signals
            },
    {
        let inner = match meta {
            Some(m) => m,
            None => {
                return None;
            },
        };
        let id = inner.conversation_id;
        self.calls.push(ModelCall::BeginInsertRows { first: 0, last: 0 });
        self.list.insert(0, Conversation { inner, matched });
        self.calls.push(ModelCall::EndInsertRows);
        assert(self.list@ =~= seq![(Conversation { inner, matched })] + old(self).list@);
        Some(id)
    }

    /// Removes the conversation at `index` once storage deleted it
    /// (`deleted`), telling the view. A pairwise conversation cannot be
    /// removed. Whether it was.
    pub fn remove_conversation(&mut self, index: u64, deleted: bool) -> (ok: bool)
        requires
            (index as usize) < old(self).list@.len(),
        ensures
            ok == (!old(self).list@[index as usize as int].inner.pairwise && deleted),
            !ok ==> *final(self) == *old(self),
            ok ==> {
                let ix = index as usize;
                &&& final(self).list@ == old(self).list@.remove(ix as int)
                &&& final(self).calls@ == old(self).calls@ + seq![
                    ModelCall::BeginRemoveRows { first: ix, last: ix },
                    ModelCall::EndRemoveRows,
                ]
            },
    {
        let ix = index as usize;
        if self.list[ix].inner.pairwise || !deleted {
            return false;
        }
        self.calls.push(ModelCall::BeginRemoveRows { first: ix, last: ix });
        self.list.remove(ix);
        self.calls.push(ModelCall::EndRemoveRows);
        true
    }

    /// Whether the conversation at `row_index` passes the filter.
    pub fn matched(&self, row_index: usize) -> (m: bool)
        requires
            row_index < self.list@.len(),
        ensures
            m == self.list@[row_index as int].matched,
    {
        self.list[row_index].matched
    }

    /// Sets whether the conversation at `row_index` passes the filter.
    pub fn set_matched(&mut self, row_index: usize, value: bool) -> (ok: bool)
        requires
            row_index < old(self).list@.len(),
        ensures
            ok,
            flagged(old(self).list@, final(self).list@, |i: int| if i == row_index { value } else { old(self).list@[i].matched }),
    {
        let c = &self.list[row_index].inner;
        let meta = ConversationMeta {
            conversation_id: c.conversation_id,
            title: c.title.clone(),
            picture: c.picture.clone(),
            color: c.color,
            muted: c.muted,
            pairwise: c.pairwise,
        };
        self.list.set(row_index, Conversation { inner: meta, matched: value });
        true
    }

    /// The filter's text.
    pub fn filter(&self) -> (f: &str)
        ensures
            f@ == self.filter.raw@,
    {
        self.filter.raw.as_str()
    }

    /// Shows every conversation and empties the filter, keeping its mode; the
    /// view hears of every row and of the filter.
    pub fn clear_filter(&mut self)
        ensures
            flagged(old(self).list@, final(self).list@, |i: int| true),
            final(self).calls@ == old(self).calls@.push(all_rows_changed(old(self).list@.len())),
            final(self).filter.raw@.len() == 0 && final(self).filter.regex == old(self).filter_regex,
            final(self).filter_regex == old(self).filter_regex,
            final(self).signals@ == old(self).signals@.push(FilterSignal::FilterChanged),
    {
        let n = self.list.len();
        let mut flags: Vec<bool> = Vec::new();
        let mut i: usize = 0;
        while i < n
            invariant
                i <= n,
                flags@.len() == i,
                forall|j: int| 0 <= j < i ==> #[trigger] flags@[j],
            decreases n - i,
        {
            flags.push(true);
            i = i + 1;
        }
        set_flags(&mut self.list, &flags);
        let last = self.list.len().saturating_sub(1);
        self.calls.push(ModelCall::DataChanged { first: 0, last });
        self.filter = PatternState { raw: String::new(), regex: self.filter_regex };
        self.signals.push(FilterSignal::FilterChanged);
    }

    /// Matches every conversation against the filter (`outcomes[i]` is what
    /// the pattern engine says of row `i`) and tells the view of every row.
    pub fn inner_filter(&mut self, outcomes: &Vec<bool>)
        requires
            outcomes@.len() == old(self).list@.len(),
        ensures
            flagged(old(self).list@, final(self).list@, |i: int| outcomes@[i]),
            final(self).calls@ == old(self).calls@.push(all_rows_changed(old(self).list@.len())),
            final(self).filter == old(self).filter,
            final(self).filter_regex == old(self).filter_regex,
            final(self).signals == old(self).signals,
    {
        set_flags(&mut self.list, outcomes);
        let last = self.list.len().saturating_sub(1);
        self.calls.push(ModelCall::DataChanged { first: 0, last });
    }

    /// Sets the filter text: an empty one clears the filter. Otherwise the
    /// text, in the current mode, becomes the filter when it compiles
    /// (`compiles`), the view hears of it and the rows are matched again.
    pub fn set_filter(&mut self, pattern: String, compiles: bool, outcomes: &Vec<bool>)
        requires
            outcomes@.len() == old(self).list@.len(),
        ensures
            pattern@.len() == 0 ==> flagged(old(self).list@, final(self).list@, |i: int| true)
                && final(self).filter.raw@.len() == 0,
            pattern@.len() > 0 && !compiles ==> *final(self) == *old(self),
            pattern@.len() > 0 && compiles ==> {
                &&& flagged(old(self).list@, final(self).list@, |i: int| outcomes@[i])
                &&& final(self).filter.raw@ == pattern@
                &&& final(self).filter.regex == old(self).filter_regex
                &&& final(self).signals@ == old(self).signals@.push(FilterSignal::FilterChanged)
                &&& final(self).calls@ == old(self).calls@.push(all_rows_changed(old(self).list@.len()))
            },
    {
        if pattern.as_str().is_empty() {
            self.clear_filter();
            return;
        }
        if !compiles {
            return;
        }
        self.filter = PatternState { raw: pattern, regex: self.filter_regex };
        self.signals.push(FilterSignal::FilterChanged);
        self.inner_filter(outcomes);
    }

    /// Switches the filter to regular-expression mode or back when its text
    /// compiles in that mode (`compiles`); the view hears of it and the rows
    /// are matched again.
    pub fn set_filter_regex(&mut self, use_regex: bool, compiles: bool, outcomes: &Vec<bool>)
        requires
            outcomes@.len() == old(self).list@.len(),
        ensures
            !compiles ==> *final(self) == *old(self),
            compiles ==> {
                &&& final(self).filter_regex == use_regex
                &&& final(self).filter.regex == use_regex
                &&& final(self).filter.raw == old(self).filter.raw
                &&& flagged(old(self).list@, final(self).list@, |i: int| outcomes@[i])
                &&& final(self).signals@ == old(self).signals@.push(FilterSignal::FilterRegexChanged)
            },
    {
        if !compiles {
            return;
        }
        self.filter.regex = use_regex;
        self.filter_regex = use_regex;
        self.signals.push(FilterSignal::FilterRegexChanged);
        self.inner_filter(outcomes);
    }

    /// Toggles the filter mode and returns the new mode. The flag always takes
    /// the new mode and the view hears of it once. When the filter's text
    /// compiles in the new mode (`compiles`) the filter follows and the rows are
    /// matched again; otherwise the filter and the rows stay as they were.
    pub fn toggle_filter_regex(&mut self, compiles: bool, outcomes: &Vec<bool>) -> (toggled: bool)
        requires
            outcomes@.len() == old(self).list@.len(),
        ensures
            toggled == !old(self).filter_regex,
            final(self).filter_regex == toggled,
            final(self).signals@ == old(self).signals@.push(FilterSignal::FilterRegexChanged),
            compiles ==> final(self).filter.regex == toggled && final(self).filter.raw == old(self).filter.raw
                && flagged(old(self).list@, final(self).list@, |i: int| outcomes@[i]),
            !compiles ==> final(self).filter == old(self).filter && final(self).list@ == old(self).list@,
    {
        let toggled = !self.filter_regex;
        self.set_filter_regex(toggled, compiles, outcomes);
        if !compiles {
            self.filter_regex = toggled;
            self.signals.push(FilterSignal::FilterRegexChanged);
        }
        toggled
    }
}

} // verus!
