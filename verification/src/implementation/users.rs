//! The classic list of contacts, in the order they were added, with a filter.
//! What is known of each contact lives in a cache outside the list; the
//! functions that need it take the cached entry. Changes are told to the view
//! through two outboxes.
use crate::messages::search::PatternState;
use crate::signal::ModelCall;
use crate::types::{ConversationId, UserId};
use crate::users::{cached_through, User};
use vstd::prelude::*;

verus! {

/// Whether a contact is active, archived or deleted.
#[derive(Clone, Copy, Debug, PartialEq, Eq, Structural)]
pub enum ContactStatus {
    Active,
    Archived,
    Deleted,
}

/// What is known of a contact.
pub struct Contact {
    pub id: UserId,
    pub name: Option<String>,
    pub pairwise_conversation: ConversationId,
    pub profile_picture: Option<String>,
    pub color: u32,
    pub status: ContactStatus,
}

/// The property signals of a filtered list.
#[derive(Clone, Copy, Debug, PartialEq, Eq)]
pub enum FilterSignal {
    FilterChanged,
    FilterRegexChanged,
    ConversationIdChanged,
}

/// The call that tells the view that every row of a list of `n` rows may have
/// changed (the first row when there is none).
pub open spec fn all_rows_changed(n: nat) -> ModelCall {
    ModelCall::DataChanged { first: 0, last: if n == 0 { 0 } else { (n - 1) as usize } }
}

/// Sets every row of `list` to matched.
pub fn show_all(list: &mut Vec<User>)
    ensures
        final(list)@.len() == old(list)@.len(),
        forall|i: int| #![trigger final(list)@[i]]
            0 <= i < old(list)@.len() ==> final(list)@[i].id@ == old(list)@[i].id@ && final(list)@[i].matched,
{
    let mut i: usize = 0;
    while i < list.len()
        invariant
            i <= list@.len(),
            list@.len() == old(list)@.len(),
            forall|j: int| 0 <= j < list@.len() ==> #[trigger] list@[j].id@ == old(list)@[j].id@,
            forall|j: int| 0 <= j < i ==> #[trigger] list@[j].matched,
        decreases list@.len() - i,
    {
        let id = list[i].id.clone();
        list.set(i, User { id, matched: true });
        i = i + 1;
    }
}

/// Sets the `matched` flag of each row of `list` to what the filter says of
/// its contact (`outcomes[i]`), in order, stopping at the first row whose
/// contact is not cached (`None`). Whether every row was reached.
pub fn apply_outcomes(list: &mut Vec<User>, outcomes: &Vec<Option<bool>>) -> (done: bool)
    requires
        outcomes@.len() == old(list)@.len(),
    ensures
        final(list)@.len() == old(list)@.len(),
        done == cached_through(outcomes@, old(list)@.len() - 1),
        forall|i: int| #![trigger final(list)@[i]]
            0 <= i < old(list)@.len() ==> final(list)@[i].id@ == old(list)@[i].id@ && (if cached_through(
                outcomes@,
                i,
            ) {
                final(list)@[i].matched == outcomes@[i].unwrap()
            } else {
                final(list)@[i].matched == old(list)@[i].matched
            }),
{
    let mut i: usize = 0;
    while i < list.len()
        invariant
            i <= list@.len(),
            list@.len() == old(list)@.len(),
            outcomes@.len() == list@.len(),
            cached_through(outcomes@, i - 1),
            forall|j: int| 0 <= j < list@.len() ==> #[trigger] list@[j].id@ == old(list)@[j].id@,
            forall|j: int| 0 <= j < i ==> #[trigger] list@[j].matched == outcomes@[j].unwrap(),
            forall|j: int| i <= j < list@.len() ==> #[trigger] list@[j].matched == old(list)@[j].matched,
        decreases list@.len() - i,
    {
        let m = match outcomes[i] {
            Some(m) => m,
            None => {
                proof {
                    assert forall|j: int| i <= j < list@.len() implies !cached_through(outcomes@, j) by {
                        assert(outcomes@[i as int] is None);
                    }
                }
                return false;
            },
        };
        let id = list[i].id.clone();
        let ghost before = list@;
        list.set(i, User { id, matched: m });
        proof {
            assert forall|j: int| 0 <= j < list@.len() implies #[trigger] list@[j].id@ == old(list)@[j].id@ && (j < i + 1 ==> list@[j].matched == outcomes@[j].unwrap()) && (j >= i + 1 ==> list@[j].matched == old(list)@[j].matched) by {
                if j != i {
                    assert(list@[j] == before[j]);
                } else {
                    assert(outcomes@[i as int] == Some(m));
                    assert(list@[j].id == before[j].id);
                }
            }
            assert forall|j: int| 0 <= j <= i implies #[trigger] outcomes@[j] is Some by {
                if j < i {
                    assert(cached_through(outcomes@, i - 1));
                }
            }
        }
        i = i + 1;
    }
    true
}

/// The classic list of contacts.
pub struct Users {
    pub signals: Vec<FilterSignal>,
    pub calls: Vec<ModelCall>,
    pub filter: PatternState,
    pub filter_regex: bool,
    pub list: Vec<User>,
}

impl Users {
    /// The contacts that storage knows (none when reading failed), all shown,
    /// with an empty normal-mode filter.
    pub fn new(all: Option<Vec<Contact>>) -> (u: Users)
        ensures
            all is None ==> u.list@.len() == 0,
            all matches Some(v) ==> u.list@.len() == v@.len() && forall|i: int|
                0 <= i < v@.len() ==> #[trigger] u.list@[i].id@ == v@[i].id@ && u.list@[i].matched,
            u.filter.raw@.len() == 0 && !u.filter.regex,
            !u.filter_regex,
            u.signals@.len() == 0,
            u.calls@.len() == 0,
    {
        let mut list: Vec<User> = Vec::new();
        match all {
            Some(v) => {
                let mut i: usize = 0;
                while i < v.len()
                    invariant
                        i <= v@.len(),
                        list@.len() == i,
                        forall|j: int| 0 <= j < i ==> #[trigger] list@[j].id@ == v@[j].id@ && list@[j].matched,
                    decreases v@.len() - i,
                {
                    let id = v[i].id.clone();
                    let ghost before = list@;
                    list.push(User { id, matched: true });
                    proof {
                        assert forall|j: int| 0 <= j < i + 1 implies #[trigger] list@[j].id@ == v@[j].id@
                            && list@[j].matched by {
                            if j < i {
                                assert(list@[j] == before[j]);
                            }
                        }
                    }
                    i = i + 1;
                }
            },
            None => {},
        }
        Users {
            signals: Vec::new(),
            calls: Vec::new(),
            filter: PatternState { raw: String::new(), regex: false },
            filter_regex: false,
            list,
        }
    }

    /// Appends the contact with id `id` that storage just added, shown as the
    /// filter says (`matched`), telling the view of the new row.
    pub fn push_user(&mut self, id: UserId, matched: bool)
        ensures
            final(self).list@ == old(self).list@.push((User { id, matched })),
            final(self).calls@ == old(self).calls@ + seq![
                ModelCall::BeginInsertRows { first: old(self).list@.len() as usize, last: old(self).list@.len() as usize },
                ModelCall::EndInsertRows,
            ],
            final(self).signals == old(self).signals,
            final(self).filter == old(self).filter,
            final(self).filter_regex == old(self).filter_regex,
    {
        let n = self.list.len();
        self.calls.push(ModelCall::BeginInsertRows { first: n, last: n });
        self.list.push(User { id, matched });
        self.calls.push(ModelCall::EndInsertRows);
    }

    /// Adds a contact that storage just created (`contact`), shown as the
    /// filter says (`matched`); its pairwise conversation.
    pub fn add(&mut self, contact: &Contact, matched: bool) -> (cid: ConversationId)
        ensures
            cid == contact.pairwise_conversation,
            final(self).list@.len() == old(self).list@.len() + 1,
            final(self).list@.drop_last() == old(self).list@,
            final(self).list@.last().id@ == contact.id@ && final(self).list@.last().matched == matched,
            final(self).calls@ == old(self).calls@ + seq![
                ModelCall::BeginInsertRows { first: old(self).list@.len() as usize, last: old(self).list@.len() as usize },
                ModelCall::EndInsertRows,
            ],
    {
        self.push_user(contact.id.clone(), matched);
        assert(self.list@.drop_last() =~= old(self).list@);
        contact.pairwise_conversation
    }

    /// Takes in a contact that the network reported and storage then read,
    /// shown as the filter says (`matched`).
    pub fn poll_update(&mut self, id: UserId, matched: bool)
        ensures
            final(self).list@ == old(self).list@.push((User { id, matched })),
            final(self).calls@ == old(self).calls@ + seq![
                ModelCall::BeginInsertRows { first: old(self).list@.len() as usize, last: old(self).list@.len() as usize },
                ModelCall::EndInsertRows,
            ],
            final(self).signals == old(self).signals,
    {
        self.push_user(id, matched);
    }

    /// The id of the contact at `row_index`; empty past the end.
    pub fn user_id(&self, row_index: usize) -> (id: &str)
        ensures
            row_index < self.list@.len() ==> id@ == self.list@[row_index as int].id@,
            row_index >= self.list@.len() ==> id@ == ""@,
    {
        if row_index < self.list.len() {
            self.list[row_index].id.as_str()
        } else {
            ""
        }
    }

    /// The name the view shows for the contact at `row_index`, `cached` being
    /// what the cache holds of it: its name, else its id; empty past the end or
    /// when nothing is cached.
    pub fn display_name(&self, row_index: usize, cached: Option<&Contact>) -> (name: String)
        ensures
            row_index >= self.list@.len() || cached is None ==> name@.len() == 0,
            row_index < self.list@.len() && cached is Some ==> name@ == match cached.unwrap().name {
                Some(n) => n@,
                None => cached.unwrap().id@,
            },
    {
        if row_index >= self.list.len() {
            return String::new();
        }
        match cached {
            Some(c) => match &c.name {
                Some(n) => n.clone(),
                None => c.id.clone(),
            },
            None => String::new(),
        }
    }

    /// The name of the contact at `row_index`, `cached` being what the cache holds of it.
    pub fn name(&self, row_index: usize, cached: Option<&Contact>) -> (name: Option<String>)
        ensures
            row_index >= self.list@.len() || cached is None ==> name is None,
            row_index < self.list@.len() && cached is Some ==> match cached.unwrap().name {
                Some(n) => name matches Some(s) && s@ == n@,
                None => name is None,
            },
    {
        if row_index >= self.list.len() {
            return None;
        }
        match cached {
            Some(c) => match &c.name {
                Some(n) => Some(n.clone()),
                None => None,
            },
            None => None,
        }
    }

    /// Whether the contact at `row_index` passes the filter; `true` past the end.
    pub fn matched(&self, row_index: usize) -> (m: bool)
        ensures
            m == (row_index >= self.list@.len() || self.list@[row_index as int].matched),
    {
        if row_index < self.list.len() {
            self.list[row_index].matched
        } else {
            true
        }
    }

    /// Sets whether the contact at `row_index` passes the filter; `false`
    /// past the end.
    pub fn set_matched(&mut self, row_index: usize, value: bool) -> (ok: bool)
        ensures
            ok == (row_index < old(self).list@.len()),
            final(self).list@.len() == old(self).list@.len(),
            forall|i: int| #![trigger final(self).list@[i]]
                0 <= i < old(self).list@.len() ==> final(self).list@[i].id@ == old(self).list@[i].id@
                    && final(self).list@[i].matched == if i == row_index {
                    value
                } else {
                    old(self).list@[i].matched
                },
            final(self).calls == old(self).calls,
    {
        if row_index >= self.list.len() {
            return false;
        }
        let id = self.list[row_index].id.clone();
        self.list.set(row_index, User { id, matched: value });
        true
    }

    /// The filter's text.
    pub fn filter(&self) -> (f: &str)
        ensures
            f@ == self.filter.raw@,
    {
        self.filter.raw.as_str()
    }

    /// Shows every contact and empties the filter, keeping its mode; the view
    /// hears of every row and of the filter.
    pub fn clear_filter(&mut self)
        ensures
            final(self).list@.len() == old(self).list@.len(),
            forall|i: int| #![trigger final(self).list@[i]]
                0 <= i < old(self).list@.len() ==> final(self).list@[i].id@ == old(self).list@[i].id@
                    && final(self).list@[i].matched,
            final(self).calls@ == old(self).calls@.push(all_rows_changed(old(self).list@.len())),
            final(self).filter.raw@.len() == 0,
            final(self).filter.regex == old(self).filter_regex,
            final(self).filter_regex == old(self).filter_regex,
            final(self).signals@ == old(self).signals@.push(FilterSignal::FilterChanged),
    {
        show_all(&mut self.list);
        let last = self.list.len().saturating_sub(1);
        self.calls.push(ModelCall::DataChanged { first: 0, last });
        self.filter = PatternState { raw: String::new(), regex: self.filter_regex };
        self.signals.push(FilterSignal::FilterChanged);
    }

    /// Matches every contact against the filter (`outcomes[i]` is what the
    /// pattern engine says of the cached contact at row `i`, `None` when it is
    /// not cached, which ends the pass there) and, when the pass ends, tells
    /// the view of every row.
    pub fn inner_filter(&mut self, outcomes: &Vec<Option<bool>>)
        requires
            outcomes@.len() == old(self).list@.len(),
        ensures
            final(self).list@.len() == old(self).list@.len(),
            forall|i: int| #![trigger final(self).list@[i]]
                0 <= i < old(self).list@.len() ==> final(self).list@[i].id@ == old(self).list@[i].id@
                    && (if cached_through(outcomes@, i) {
                    final(self).list@[i].matched == outcomes@[i].unwrap()
                } else {
                    final(self).list@[i].matched == old(self).list@[i].matched
                }),
            cached_through(outcomes@, old(self).list@.len() - 1) ==> final(self).calls@ == old(self).calls@.push(
                all_rows_changed(old(self).list@.len()),
            ),
            !cached_through(outcomes@, old(self).list@.len() - 1) ==> final(self).calls == old(self).calls,
            final(self).filter == old(self).filter,
            final(self).filter_regex == old(self).filter_regex,
            final(self).signals == old(self).signals,
    {
        if !apply_outcomes(&mut self.list, outcomes) {
            return;
        }
        let last = self.list.len().saturating_sub(1);
        self.calls.push(ModelCall::DataChanged { first: 0, last });
    }

    /// Sets the filter text: an empty one clears the filter. Otherwise the
    /// text, in the current mode, becomes the filter when it compiles
    /// (`compiles`); the view hears of it and the contacts are matched again.
    pub fn set_filter(&mut self, pattern: String, compiles: bool, outcomes: &Vec<Option<bool>>)
        requires
            outcomes@.len() == old(self).list@.len(),
        ensures
            final(self).list@.len() == old(self).list@.len(),
            final(self).filter_regex == old(self).filter_regex,
            pattern@.len() == 0 ==> final(self).filter.raw@.len() == 0 && forall|i: int| #![trigger final(self).list@[i]]
                0 <= i < old(self).list@.len() ==> final(self).list@[i].matched,
            pattern@.len() > 0 && !compiles ==> *final(self) == *old(self),
            pattern@.len() > 0 && compiles ==> {
                &&& final(self).filter.raw@ == pattern@
                &&& final(self).filter.regex == old(self).filter_regex
                &&& final(self).signals@ == old(self).signals@.push(FilterSignal::FilterChanged)
                &&& forall|i: int| #![trigger final(self).list@[i]]
                    0 <= i < old(self).list@.len() && cached_through(outcomes@, i) ==> final(self).list@[i].matched == outcomes@[i].unwrap()
            },
    {
        if pattern.as_str().is_empty() {
            self.clear_filter();
            return;
        }
        if !compiles {
            return;
        }
        self.filter = PatternState { raw: pattern, regex: self.filter_regex };
        self.signals.push(FilterSignal::FilterChanged);
        self.inner_filter(outcomes);
    }

    /// Switches the filter to regular-expression mode or back, when its text
    /// compiles in that mode (`compiles`; otherwise nothing changes); the view
    /// hears of it and the contacts are matched again.
    pub fn set_filter_regex(&mut self, use_regex: bool, compiles: bool, outcomes: &Vec<Option<bool>>)
        requires
            outcomes@.len() == old(self).list@.len(),
        ensures
            final(self).list@.len() == old(self).list@.len(),
            !compiles ==> *final(self) == *old(self),
            compiles ==> {
                &&& final(self).filter_regex == use_regex
                &&& final(self).filter.regex == use_regex
                &&& final(self).filter.raw == old(self).filter.raw
                &&& final(self).signals@ == old(self).signals@.push(FilterSignal::FilterRegexChanged)
                &&& forall|i: int| #![trigger final(self).list@[i]]
                    0 <= i < old(self).list@.len() && cached_through(outcomes@, i) ==> final(self).list@[i].matched == outcomes@[i].unwrap()
            },
    {
        if !compiles {
            return;
        }
        self.filter.regex = use_regex;
        self.filter_regex = use_regex;
        self.signals.push(FilterSignal::FilterRegexChanged);
        self.inner_filter(outcomes);
    }

    /// Toggles the filter mode and returns the new mode. The flag always takes
    /// the new mode and the view hears of it once. When the filter's text
    /// compiles in the new mode (`compiles`) the filter follows and the contacts
    /// are matched again; otherwise the filter and the list stay as they were.
    pub fn toggle_filter_regex(&mut self, compiles: bool, outcomes: &Vec<Option<bool>>) -> (toggled: bool)
        requires
            outcomes@.len() == old(self).list@.len(),
        ensures
            toggled == !old(self).filter_regex,
            final(self).filter_regex == toggled,
            final(self).list@.len() == old(self).list@.len(),
            final(self).signals@ == old(self).signals@.push(FilterSignal::FilterRegexChanged),
            compiles ==> {
                &&& final(self).filter.regex == toggled
                &&& final(self).filter.raw == old(self).filter.raw
                &&& forall|i: int| #![trigger final(self).list@[i]]
                    0 <= i < old(self).list@.len() && cached_through(outcomes@, i) ==> final(self).list@[i].matched == outcomes@[i].unwrap()
            },
            !compiles ==> final(self).filter == old(self).filter && final(self).list@ == old(self).list@,
    {
        let toggled = !self.filter_regex;
        self.set_filter_regex(toggled, compiles, outcomes);
        if !compiles {
            self.filter_regex = toggled;
            self.signals.push(FilterSignal::FilterRegexChanged);
        }
        toggled
    }

    /// The cache entry of the contact at `row_index` with the name `name`, once
    /// storage took it (`stored`); `None`, for failure, past the end, when
    /// nothing is cached (`cached`) or storage failed.
    pub fn set_name(&self, row_index: usize, cached: Option<Contact>, name: Option<String>, stored: bool) -> (updated: Option<Contact>)
        ensures
            updated is Some <==> (row_index < self.list@.len() && cached is Some && stored),
            updated is Some ==> updated == Some((Contact { name, ..cached.unwrap() })),
    {
        if row_index >= self.list.len() || !stored {
            return None;
        }
        match cached {
            Some(mut c) => {
                c.name = name;
                Some(c)
            },
            None => None,
        }
    }

    /// The cache entry of the contact at `row_index` with the profile picture
    /// that storage kept (`stored`, `None` when storing failed).
    pub fn set_profile_picture(&self, row_index: usize, cached: Option<Contact>, stored: Option<Option<String>>) -> (updated: Option<Contact>)
        ensures
            updated is Some <==> (row_index < self.list@.len() && cached is Some && stored is Some),
            updated is Some ==> updated == Some((Contact { profile_picture: stored.unwrap(), ..cached.unwrap() })),
    {
        if row_index >= self.list.len() {
            return None;
        }
        match (cached, stored) {
            (Some(mut c), Some(path)) => {
                c.profile_picture = path;
                Some(c)
            },
            _ => None,
        }
    }

    /// The cache entry of the contact at `row_index` with the color `color`,
    /// once storage took it (`stored`).
    pub fn set_color(&self, row_index: usize, cached: Option<Contact>, color: u32, stored: bool) -> (updated: Option<Contact>)
        ensures
            updated is Some <==> (row_index < self.list@.len() && cached is Some && stored),
            updated is Some ==> updated == Some((Contact { color, ..cached.unwrap() })),
    {
        if row_index >= self.list.len() || !stored {
            return None;
        }
        match cached {
            Some(mut c) => {
                c.color = color;
                Some(c)
            },
            None => None,
        }
    }

    /// Sets the status of the contact at `row_index` from its number (0
    /// active, 1 archived, 2 deleted) once storage took it (`stored`), `cached`
    /// being its cache entry: the entry to store back, or `None` for failure
    /// (another number, no such row, nothing cached, storage failed). A deleted
    /// contact leaves the list, and the view hears of it.
    pub fn set_status(&mut self, row_index: usize, status: u8, cached: Option<Contact>, stored: bool) -> (updated: Option<Contact>)
        ensures
            updated is Some <==> (status <= 2 && row_index < old(self).list@.len() && cached is Some && stored),
            updated is None ==> *final(self) == *old(self),
            updated is Some ==> {
                let s = if status == 0 {
                    ContactStatus::Active
                } else if status == 1 {
                    ContactStatus::Archived
                } else {
                    ContactStatus::Deleted
                };
                &&& updated == Some((Contact { status: s, ..cached.unwrap() }))
                &&& s != ContactStatus::Deleted ==> *final(self) == *old(self)
                &&& s == ContactStatus::Deleted ==> final(self).list@ == old(self).list@.remove(row_index as int)
                    && final(self).calls@ == old(self).calls@ + seq![
                    ModelCall::BeginRemoveRows { first: row_index, last: row_index },
                    ModelCall::EndRemoveRows,
                ] && final(self).signals == old(self).signals && final(self).filter == old(self).filter
            },
    {
        let s = if status == 0 {
            ContactStatus::Active
        } else if status == 1 {
            ContactStatus::Archived
        } else if status == 2 {
            ContactStatus::Deleted
        } else {
            return None;
        };
        if row_index >= self.list.len() || !stored {
            return None;
        }
        let mut c = match cached {
            Some(c) => c,
            None => {
                return None;
            },
        };
        c.status = s;
        if status == 2 {
            self.calls.push(ModelCall::BeginRemoveRows { first: row_index, last: row_index });
            self.list.remove(row_index);
            self.calls.push(ModelCall::EndRemoveRows);
        }
        Some(c)
    }

    /// The number of contacts.
    pub fn row_count(&self) -> (n: usize)
        ensures
            n == self.list@.len(),
    {
        self.list.len()
    }
}

} // verus!
