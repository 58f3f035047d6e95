//! The search over the messages of all conversations: the pattern, and the
//! results that a search thread streams in.
use crate::interface::message_search::{MessageSearchEmitter, MessageSearchList, MessageSearchSignal};
use crate::messages::search::PatternState;
use crate::types::{ConversationId, MsgId, UserId};
use crate::signal::{after_call, after_calls, lemma_calls_none, lemma_calls_push, raised, ModelCall};
use vstd::prelude::*;

verus! {

/// The body of a result, cut around the first match.
pub struct ResultBody {
    pub before_first: String,
    pub first_match: String,
    pub after_first: String,
}

/// A message that matched.
pub struct SearchResult {
    pub author: UserId,
    pub body: ResultBody,
    pub conversation: ConversationId,
    pub message_id: MsgId,
    pub time: i64,
}

/// The results after a batch `batch` arrived while `num` results of the
/// current search were in: the batch overwrites the slots from `num` on, and
/// what does not fit is appended.
pub open spec fn after_batch(results: Seq<SearchResult>, num: int, batch: Seq<SearchResult>) -> Seq<SearchResult> {
    if num + batch.len() <= results.len() {
        results.subrange(0, num) + batch + results.subrange(num + batch.len(), results.len() as int)
    } else {
        results.subrange(0, num) + batch
    }
}

/// The calls that the first `k` results of a batch send when they arrive while
/// `num` results of the current search were in and the list held `len` rows:
/// a result that lands on a stale row redraws it, one past the end is a new row.
pub open spec fn batch_calls(num: int, len: int, k: nat) -> Seq<ModelCall>
    decreases k,
{
    if k == 0 {
        Seq::<ModelCall>::empty()
    } else {
        let slot = (num + k - 1) as usize;
        batch_calls(num, len, (k - 1) as nat) + if num + k - 1 < len {
            seq![ModelCall::DataChanged { first: slot, last: slot }]
        } else {
            seq![ModelCall::BeginInsertRows { first: slot, last: slot }, ModelCall::EndInsertRows]
        }
    }
}

/// The calls that resetting the view sends.
pub open spec fn reset_calls(model: Seq<ModelCall>, target: usize) -> Seq<ModelCall> {
    after_call(after_call(model, target, ModelCall::BeginResetModel), target, ModelCall::EndResetModel)
}

/// Once a search has finished, the rows hold what came before its first
/// batch's slot followed by everything the batch brought: whatever stale rows
/// it did not overwrite are gone.
pub proof fn finished_search_shows_its_results(results: Seq<SearchResult>, num: int, batch: Seq<SearchResult>)
    requires
        0 <= num <= results.len(),
    ensures
        after_batch(results, num, batch).take(num + batch.len()) == results.take(num) + batch,
{
    assert(after_batch(results, num, batch).take(num + batch.len()) =~= results.take(num) + batch);
}

/// Batches taken in one after the other stand in the rows in the order they
/// came, as one batch holding them all would.
pub proof fn batches_add_up(results: Seq<SearchResult>, num: int, b1: Seq<SearchResult>, b2: Seq<SearchResult>)
    requires
        0 <= num <= results.len(),
    ensures
        after_batch(after_batch(results, num, b1), num + b1.len(), b2) == after_batch(results, num, b1 + b2),
{
    let r1 = after_batch(results, num, b1);
    assert(r1.len() >= num + b1.len());
    assert(after_batch(r1, num + b1.len(), b2) =~= after_batch(results, num, b1 + b2));
}

/// The search over all messages. Results of an earlier search stay in the list
/// until the new search overwrites them or finishes.
pub struct MessageSearch {
    pub pattern: Option<PatternState>,
    pub emit: MessageSearchEmitter,
    pub model: MessageSearchList,
    pub results: Vec<SearchResult>,
    pub num_results: usize,
}

impl MessageSearch {
    /// The invariant: the results of the current search are a prefix of the list.
    pub open spec fn wf(&self) -> bool {
        self.num_results <= self.results@.len()
    }

    /// A search with no pattern and no results.
    pub fn new(emit: MessageSearchEmitter, model: MessageSearchList) -> (s: MessageSearch)
        ensures
            s.wf(),
            s.pattern is None,
            s.results@.len() == 0,
            s.num_results == 0,
    {
        MessageSearch { pattern: None, results: Vec::new(), num_results: 0, model, emit }
    }

    /// Whether the pattern is a regular expression; `None` without a pattern.
    pub fn regex_search(&self) -> (r: Option<bool>)
        ensures
            r == match self.pattern {
                Some(p) => Some(p.regex),
                None => None::<bool>,
            },
    {
        match &self.pattern {
            Some(p) => Some(p.regex),
            None => None,
        }
    }

    /// The pattern's text, `None` without a pattern.
    pub fn search_pattern(&self) -> (p: Option<&str>)
        ensures
            self.pattern is None ==> p is None,
            self.pattern matches Some(pat) ==> crate::types::some_text(p, pat.raw@),
    {
        match &self.pattern {
            Some(p) => Some(p.raw.as_str()),
            None => None,
        }
    }

    /// Drops the pattern and every result, resetting the view.
    pub fn clear_search(&mut self)
        ensures
            final(self).wf(),
            final(self).pattern is None,
            final(self).results@.len() == 0,
            final(self).num_results == 0,
            final(self).model.target() == old(self).model.target(),
            final(self).model@ == reset_calls(old(self).model@, old(self).model.target()),
            final(self).emit@ == old(self).emit@,
    {
        self.model.begin_reset_model();
        self.pattern = None;
        self.results = Vec::new();
        self.num_results = 0;
        self.model.end_reset_model();
    }

    /// The number of rows.
    pub fn row_count(&self) -> (n: usize)
        ensures
            n == self.results@.len(),
    {
        self.results.len()
    }

    /// Sets the pattern text: `None` or an empty text clears the search.
    /// Otherwise the text goes into the pattern (a new pattern is in normal mode)
    /// when it compiles (`compiles`), the view hears of it, and the pattern to
    /// search with is handed back. When the text does not compile the pattern is
    /// dropped and nothing is searched.
    pub fn set_search_pattern(&mut self, pattern: Option<String>, compiles: bool) -> (start: Option<
        PatternState,
    >)
        requires
            old(self).wf(),
        ensures
            final(self).wf(),
            pattern is None ==> start is None && final(self).pattern is None && final(self).results@.len() == 0,
            pattern is Some && pattern.unwrap()@.len() == 0 ==> start is None && final(self).pattern is None
                && final(self).results@.len() == 0,
            final(self).model.target() == old(self).model.target(),
            pattern is None || pattern.unwrap()@.len() == 0 ==> final(self).model@ == reset_calls(
                old(self).model@,
                old(self).model.target(),
            ) && final(self).emit@ == old(self).emit@,
            pattern is Some && pattern.unwrap()@.len() > 0 ==> final(self).model@ == old(self).model@,
            pattern is Some && pattern.unwrap()@.len() > 0 && !compiles ==> final(self).emit@ == old(self).emit@,
            pattern is Some && pattern.unwrap()@.len() > 0 && compiles ==> raised(
                old(self).emit@,
                final(self).emit@,
                MessageSearchSignal::SearchPatternChanged,
            ),
            pattern is Some && pattern.unwrap()@.len() > 0 && !compiles ==> start is None && final(self).pattern is None
                && final(self).num_results == 0 && final(self).results@ == old(self).results@,
            pattern is Some && pattern.unwrap()@.len() > 0 && compiles ==> final(self).num_results == 0
                && final(self).results@ == old(self).results@ && start is Some && final(self).pattern is Some
                && start.unwrap().raw@ == pattern.unwrap()@ && final(self).pattern.unwrap().raw@ == pattern.unwrap()@ && start.unwrap().regex
                == final(self).pattern.unwrap().regex && final(self).pattern.unwrap().regex == (match old(self).pattern {
                    Some(p) => p.regex,
                    None => false,
                }),
    {
        let old_pattern = self.pattern.take();
        match pattern {
            Some(new) => {
                self.num_results = 0;
                if new.as_str().is_empty() {
                    self.clear_search();
                    return None;
                }
                if !compiles {
                    return None;
                }
                let regex = match &old_pattern {
                    Some(p) => p.regex,
                    None => false,
                };
                let copy = new.clone();
                self.pattern = Some(PatternState { raw: new, regex });
                self.emit.search_pattern_changed();
                Some(PatternState { raw: copy, regex })
            },
            None => {
                self.clear_search();
                None
            },
        }
    }

    /// Switches the pattern's mode. To regular expression: the search is
    /// cleared and, when the text compiles as one (`compiles`), the pattern comes
    /// back in that mode and is handed back to search with. To normal: when the
    /// text compiles the pattern to search with is handed back, but the list
    /// keeps no pattern. Asking for the mode it has, or for none, changes nothing.
    pub fn set_regex_search(&mut self, is_regex: Option<bool>, compiles: bool) -> (start: Option<
        PatternState,
    >)
        requires
            old(self).wf(),
        ensures
            final(self).wf(),
            is_regex is None || old(self).pattern is None ==> start is None && final(self).pattern == old(self).pattern
                && final(self).results@ == old(self).results@,
            is_regex is Some && old(self).pattern is Some && is_regex.unwrap() == old(self).pattern.unwrap().regex
                ==> start is None && final(self).pattern is None && final(self).results@ == old(self).results@,
            start matches Some(p) ==> p.regex == is_regex.unwrap() && old(self).pattern is Some && p.raw
                == old(self).pattern.unwrap().raw,
            is_regex == Some(true) && old(self).pattern is Some && !old(self).pattern.unwrap().regex ==> (
            final(self).results@.len() == 0 && (compiles <==> start is Some) && (compiles
                ==> final(self).pattern == start)),
            is_regex == Some(false) && old(self).pattern is Some && old(self).pattern.unwrap().regex ==> (
            final(self).pattern is None && (compiles <==> start is Some)),
            final(self).model.target() == old(self).model.target(),
            is_regex == Some(true) && old(self).pattern is Some && !old(self).pattern.unwrap().regex
                ==> final(self).model@ == reset_calls(old(self).model@, old(self).model.target()),
            !(is_regex == Some(true) && old(self).pattern is Some && !old(self).pattern.unwrap().regex)
                ==> final(self).model@ == old(self).model@,
            start is Some ==> raised(old(self).emit@, final(self).emit@, MessageSearchSignal::RegexSearchChanged),
            start is None ==> final(self).emit@ == old(self).emit@,
    {
        match is_regex {
            None => None,
            Some(new) => match self.pattern.take() {
                None => None,
                Some(pattern) => {
                    if new && !pattern.regex {
                        self.clear_search();
                        if !compiles {
                            return None;
                        }
                        let raw = pattern.raw.clone();
                        self.pattern = Some(PatternState { raw: pattern.raw, regex: true });
                        self.emit.regex_search_changed();
                        Some(PatternState { raw, regex: true })
                    } else if !new && pattern.regex {
                        if !compiles {
                            return None;
                        }
                        self.emit.regex_search_changed();
                        Some(PatternState { raw: pattern.raw, regex: false })
                    } else {
                        None
                    }
                },
            },
        }
    }

    /// Takes in a batch of results from the search thread: they overwrite the
    /// stale rows from the current count on (the view hears of each changed
    /// row) and the rest are appended as new rows.
    pub fn add_results(&mut self, batch: Vec<SearchResult>)
        requires
            old(self).wf(),
            old(self).num_results + batch@.len() <= usize::MAX,
        ensures
            final(self).wf(),
            final(self).num_results == old(self).num_results + batch@.len(),
            final(self).results@ == after_batch(old(self).results@, old(self).num_results as int, batch@),
            final(self).pattern == old(self).pattern,
            final(self).model.target() == old(self).model.target(),
            final(self).model@ == after_calls(
                old(self).model@,
                old(self).model.target(),
                batch_calls(old(self).num_results as int, old(self).results@.len() as int, batch@.len()),
            ),
    {
        let ghost r0 = self.results@;
        let ghost n0 = self.num_results as int;
        let ghost b = batch@;
        let mut batch = batch;
        let mut k: usize = 0;
        let total = batch.len();
        proof {
            lemma_calls_none(self.model@, self.model.target());
        }
        while k < total
            invariant
                total == b.len(),
                k <= total,
                batch@ == b.subrange(k as int, total as int),
                self.num_results == n0 + k,
                n0 + total <= usize::MAX,
                self.num_results <= self.results@.len(),
                self.results@ == after_batch(r0, n0, b.subrange(0, k as int)),
                0 <= n0 <= r0.len(),
                self.pattern == old(self).pattern,
                self.model.target() == old(self).model.target(),
                self.model@ == after_calls(old(self).model@, old(self).model.target(), batch_calls(n0, r0.len() as int, k as nat)),
            decreases total - k,
        {
            let new_res = batch.remove(0);
            let num = self.num_results;
            let ghost made = batch_calls(n0, r0.len() as int, k as nat);
            let ghost t = old(self).model.target();
            proof {
                let prev = after_batch(r0, n0, b.subrange(0, k as int));
                if n0 + k <= r0.len() {
                    assert(prev.len() == r0.len());
                } else {
                    assert(prev.len() == n0 + k);
                }
                assert((num < self.results@.len()) == (n0 + k < r0.len()));
            }
            proof {
                assert(b.subrange(0, k + 1) =~= b.subrange(0, k as int).push(new_res));
            }
            if num < self.results.len() {
                self.results.set(num, new_res);
                proof {
                    lemma_calls_push(old(self).model@, t, made, ModelCall::DataChanged { first: num, last: num });
                }
                self.model.data_changed(num, num);
                proof {
                    assert(batch_calls(n0, r0.len() as int, (k + 1) as nat) =~= made.push(ModelCall::DataChanged { first: num, last: num }));
                    let prev = after_batch(r0, n0, b.subrange(0, k as int));
                    let next = after_batch(r0, n0, b.subrange(0, k + 1));
                    if n0 + k <= r0.len() {
                        assert(prev.len() == r0.len());
                    } else {
                        assert(prev.len() == n0 + k);
                    }
                    assert(n0 + k + 1 <= r0.len());
                    assert forall|i: int| 0 <= i < next.len() implies self.results@[i] == next[i] by {
                        if i < n0 {
                        } else if i < n0 + k {
                            assert(b.subrange(0, k + 1)[i - n0] == b.subrange(0, k as int)[i - n0]);
                        } else if i == n0 + k {
                        } else {
                        }
                    }
                    assert(self.results@ =~= next);
                }
            } else {
                proof {
                    lemma_calls_push(old(self).model@, t, made, ModelCall::BeginInsertRows { first: num, last: num });
                }
                self.model.begin_insert_rows(num, num);
                self.results.push(new_res);
                proof {
                    lemma_calls_push(old(self).model@, t, made.push(ModelCall::BeginInsertRows { first: num, last: num }), ModelCall::EndInsertRows);
                }
                self.model.end_insert_rows();
                proof {
                    assert(batch_calls(n0, r0.len() as int, (k + 1) as nat) =~= made.push(ModelCall::BeginInsertRows { first: num, last: num }).push(ModelCall::EndInsertRows));
                    let next = after_batch(r0, n0, b.subrange(0, k + 1));
                    assert(self.results@ =~= next);
                }
            }
            self.num_results = num + 1;
            k = k + 1;
        }
        assert(b.subrange(0, total as int) =~= b);
    }

    /// The search thread finished: rows past the current count, left from an
    /// earlier search, go.
    pub fn finish(&mut self)
        requires
            old(self).wf(),
        ensures
            final(self).wf(),
            final(self).num_results == old(self).num_results,
            final(self).results@ == old(self).results@.take(old(self).num_results as int),
            final(self).pattern == old(self).pattern,
            final(self).model.target() == old(self).model.target(),
            old(self).num_results == old(self).results@.len() ==> final(self).model@ == old(self).model@,
            old(self).num_results < old(self).results@.len() ==> final(self).model@ == after_call(
                after_call(
                    old(self).model@,
                    old(self).model.target(),
                    ModelCall::BeginRemoveRows {
                        first: old(self).num_results,
                        last: (old(self).results@.len() - 1) as usize,
                    },
                ),
                old(self).model.target(),
                ModelCall::EndRemoveRows,
            ),
    {
        let new_len = self.num_results;
        let diff = self.results.len().saturating_sub(new_len);
        if diff != 0 {
            let last = self.results.len().saturating_sub(1);
            self.model.begin_remove_rows(new_len, last);
            self.results.truncate(new_len);
            self.model.end_remove_rows();
        } else {
            assert(self.results@.take(new_len as int) =~= self.results@);
        }
    }

    /// The author of the result at `index`.
    pub fn author(&self, index: usize) -> (a: Option<&str>)
        ensures
            index >= self.results@.len() ==> a is None,
            index < self.results@.len() ==> crate::types::some_text(a, self.results@[index as int].author@),
    {
        if index < self.results.len() {
            Some(self.results[index].author.as_str())
        } else {
            None
        }
    }

    /// The body text before the first match of the result at `index`; empty past the end.
    pub fn before_first_match(&self, index: usize) -> (s: &str)
        ensures
            index < self.results@.len() ==> s@ == self.results@[index as int].body.before_first@,
            index >= self.results@.len() ==> s@ == ""@,
    {
        if index < self.results.len() {
            self.results[index].body.before_first.as_str()
        } else {
            ""
        }
    }

    /// The first match in the body of the result at `index`; empty past the end.
    pub fn first_match(&self, index: usize) -> (s: &str)
        ensures
            index < self.results@.len() ==> s@ == self.results@[index as int].body.first_match@,
            index >= self.results@.len() ==> s@ == ""@,
    {
        if index < self.results.len() {
            self.results[index].body.first_match.as_str()
        } else {
            ""
        }
    }

    /// The body text after the first match of the result at `index`; empty past the end.
    pub fn after_first_match(&self, index: usize) -> (s: &str)
        ensures
            index < self.results@.len() ==> s@ == self.results@[index as int].body.after_first@,
            index >= self.results@.len() ==> s@ == ""@,
    {
        if index < self.results.len() {
            self.results[index].body.after_first.as_str()
        } else {
            ""
        }
    }

    /// The conversation of the result at `index`.
    pub fn conversation(&self, index: usize) -> (c: Option<&ConversationId>)
        ensures
            index >= self.results@.len() ==> c is None,
            index < self.results@.len() ==> c == Some(&self.results@[index as int].conversation),
    {
        if index < self.results.len() {
            Some(&self.results[index].conversation)
        } else {
            None
        }
    }

    /// The message id of the result at `index`.
    pub fn msg_id(&self, index: usize) -> (m: Option<&MsgId>)
        ensures
            index >= self.results@.len() ==> m is None,
            index < self.results@.len() ==> m == Some(&self.results@[index as int].message_id),
    {
        if index < self.results.len() {
            Some(&self.results[index].message_id)
        } else {
            None
        }
    }

    /// The time of the result at `index`.
    pub fn time(&self, index: usize) -> (t: Option<i64>)
        ensures
            index >= self.results@.len() ==> t is None,
            index < self.results@.len() ==> t == Some(self.results@[index as int].time),
    {
        if index < self.results.len() {
            Some(self.results[index].time)
        } else {
            None
        }
    }
}

} // verus!
