//! The classic contact list with a filter, newest first. Changes are told to
//! the view through two outboxes.
use super::users::{all_rows_changed, Contact, ContactStatus, FilterSignal};
use crate::messages::search::PatternState;
use crate::signal::ModelCall;
use crate::types::{ConversationId, UserId};
use vstd::prelude::*;

verus! {

/// A row: a contact, and whether the filter lets it through.
pub struct ContactsItem {
    pub inner: Contact,
    pub matched: bool,
}

/// The classic contact list.
pub struct Contacts {
    pub signals: Vec<FilterSignal>,
    pub calls: Vec<ModelCall>,
    pub filter: PatternState,
    pub filter_regex: bool,
    pub list: Vec<ContactsItem>,
}

/// Whether a contact passes the filter: its name matches when it has one
/// (`name_match`; else it keeps its flag `was`), or its id matches (`id_match`).
pub open spec fn contact_passes(c: Contact, was: bool, name_match: bool, id_match: bool) -> bool {
    (if c.name is Some { name_match } else { was }) || id_match
}

/// A contact whose name matches the filter passes it, whatever its id says; so
/// does one whose id matches.
pub proof fn a_matching_name_or_id_lets_a_contact_through(c: Contact, was: bool, name_match: bool, id_match: bool)
    ensures
        c.name is Some && name_match ==> contact_passes(c, was, name_match, id_match),
        id_match ==> contact_passes(c, was, name_match, id_match),
{
}

/// A named contact whose name and id both fail the filter is hidden, whatever
/// it showed before; an unnamed one keeps what it showed unless its id matches.
pub proof fn a_contact_passes_only_by_name_or_id(c: Contact, was: bool, name_match: bool, id_match: bool)
    ensures
        c.name is Some && !name_match && !id_match ==> !contact_passes(c, was, name_match, id_match),
        c.name is None && !id_match ==> contact_passes(c, was, name_match, id_match) == was,
{
}

/// `a` and `b` are the same contact.
pub open spec fn same_contact(a: Contact, b: Contact) -> bool {
    &&& a.id@ == b.id@
    &&& a.name == b.name
    &&& a.pairwise_conversation == b.pairwise_conversation
    &&& a.profile_picture == b.profile_picture
    &&& a.color == b.color
    &&& a.status == b.status
}

/// The longest id that a new contact can have, in bytes.
pub const MAX_ID_LEN: usize = 255;

/// A copy of the contact `c` with the fields that the caller overrides.
fn copy_contact(c: &Contact) -> (d: Contact)
    ensures
        d.id@ == c.id@,
        d.name == c.name,
        d.pairwise_conversation == c.pairwise_conversation,
        d.profile_picture == c.profile_picture,
        d.color == c.color,
        d.status == c.status,
{
    Contact {
        id: c.id.clone(),
        name: c.name.clone(),
        pairwise_conversation: c.pairwise_conversation,
        profile_picture: c.profile_picture.clone(),
        color: c.color,
        status: c.status,
    }
}

impl Contacts {
    /// The contacts that storage holds (none when reading failed), all shown,
    /// with an empty normal-mode filter.
    pub fn new(all: Option<Vec<Contact>>) -> (c: Contacts)
        ensures
            all is None ==> c.list@.len() == 0,
            all matches Some(v) ==> c.list@.len() == v@.len() && forall|i: int|
                #![trigger c.list@[i]] 0 <= i < v@.len() ==> c.list@[i].inner == v@[i] && c.list@[i].matched,
            c.filter.raw@.len() == 0 && !c.filter.regex && !c.filter_regex,
    {
        let mut list: Vec<ContactsItem> = Vec::new();
        match all {
            Some(v) => {
                let mut v = v;
                let ghost all_c = v@;
                let n = v.len();
                let mut k: usize = 0;
                while k < n
                    invariant
                        n == all_c.len(),
                        k <= n,
                        v@ == all_c.subrange(k as int, n as int),
                        list@.len() == k,
                        forall|j: int| #![trigger list@[j]] 0 <= j < k ==> list@[j].inner == all_c[j] && list@[j].matched,
                    decreases n - k,
                {
                    let c = v.remove(0);
                    let ghost l0 = list@;
                    list.push(ContactsItem { inner: c, matched: true });
                    proof {
                        assert forall|j: int| #![trigger list@[j]] 0 <= j < k + 1 implies list@[j].inner == all_c[j]
                            && list@[j].matched by {
                            if j < k {
                                assert(list@[j] == l0[j]);
                            }
                        }
                    }
                    k = k + 1;
                }
            },
            None => {},
        }
        Contacts {
            signals: Vec::new(),
            calls: Vec::new(),
            filter: PatternState { raw: String::new(), regex: false },
            filter_regex: false,
            list,
        }
    }

    /// Puts the contact that storage just created (`created`, `None` when that
    /// failed) first, shown, telling the view, and matches every contact
    /// again (`outcomes`, as `inner_filter` takes them, for the list with the
    /// new contact first). Its pairwise conversation; `None` when the id is
    /// longer than `MAX_ID_LEN` bytes (nothing is created then) or storage failed.
    pub fn add(&mut self, id: &str, created: Option<Contact>, outcomes: &Vec<(bool, bool)>) -> (cid: Option<ConversationId>)
        requires
            outcomes@.len() == old(self).list@.len() + 1,
        ensures
            id.len() > MAX_ID_LEN || created is None ==> cid is None && *final(self) == *old(self),
            id.len() <= MAX_ID_LEN && created is Some ==> {
                &&& cid == Some(created.unwrap().pairwise_conversation)
                &&& final(self).list@.len() == old(self).list@.len() + 1
                &&& same_contact(final(self).list@[0].inner, created.unwrap())
                &&& final(self).calls@ == old(self).calls@ + seq![
                    ModelCall::BeginInsertRows { first: 0, last: 0 },
                    ModelCall::EndInsertRows,
                    all_rows_changed(old(self).list@.len() + 1),
                ]
            },
    {
        if id.len() > MAX_ID_LEN {
            return None;
        }
        let contact = match created {
            Some(c) => c,
            None => {
                return None;
            },
        };
        let cid = contact.pairwise_conversation;
        self.calls.push(ModelCall::BeginInsertRows { first: 0, last: 0 });
        self.list.insert(0, ContactsItem { inner: contact, matched: true });
        self.calls.push(ModelCall::EndInsertRows);
        self.inner_filter(outcomes);
        Some(cid)
    }

    /// The id of the contact at `row_index`.
    pub fn contact_id(&self, row_index: usize) -> (id: &str)
        requires
            row_index < self.list@.len(),
        ensures
            id@ == self.list@[row_index as int].inner.id@,
    {
        self.list[row_index].inner.id.as_str()
    }

    /// The pairwise conversation of the contact at `row_index`.
    pub fn pairwise_conversation_id(&self, row_index: usize) -> (c: &ConversationId)
        requires
            row_index < self.list@.len(),
        ensures
            *c == self.list@[row_index as int].inner.pairwise_conversation,
    {
        &self.list[row_index].inner.pairwise_conversation
    }

    /// The name of the contact at `row_index`.
    pub fn name(&self, row_index: usize) -> (n: Option<&str>)
        requires
            row_index < self.list@.len(),
        ensures
            crate::types::shows_text(n, self.list@[row_index as int].inner.name),
    {
        match &self.list[row_index].inner.name {
            Some(n) => Some(n.as_str()),
            None => None,
        }
    }

    /// Replaces the contact at `row_index` by `c`, keeping its flag.
    fn set_contact(&mut self, row_index: usize, c: Contact)
        requires
            row_index < old(self).list@.len(),
        ensures
            final(self).list@ == old(self).list@.update(
                row_index as int,
                (ContactsItem { inner: c, matched: old(self).list@[row_index as int].matched }),
            ),
            final(self).calls == old(self).calls,
            final(self).signals == old(self).signals,
            final(self).filter == old(self).filter,
            final(self).filter_regex == old(self).filter_regex,
    {
        let matched = self.list[row_index].matched;
        self.list.set(row_index, ContactsItem { inner: c, matched });
    }

    /// Sets the name of the contact at `row_index` once storage did
    /// (`stored`); whether it did.
    pub fn set_name(&mut self, row_index: usize, name: Option<String>, stored: bool) -> (ok: bool)
        requires
            row_index < old(self).list@.len(),
        ensures
            ok == stored,
            !ok ==> *final(self) == *old(self),
            ok ==> final(self).list@.len() == old(self).list@.len() && final(self).list@[row_index as int].inner.name == name
                && final(self).list@[row_index as int].inner.id@ == old(self).list@[row_index as int].inner.id@
                && forall|i: int| 0 <= i < old(self).list@.len() && i != row_index ==> #[trigger] final(self).list@[i] == old(self).list@[i],
    {
        if !stored {
            return false;
        }
        let mut c = copy_contact(&self.list[row_index].inner);
        c.name = name;
        self.set_contact(row_index, c);
        true
    }

    /// The profile picture of the contact at `row_index`.
    pub fn profile_picture(&self, row_index: usize) -> (p: Option<&str>)
        requires
            row_index < self.list@.len(),
        ensures
            crate::types::shows_text(p, self.list@[row_index as int].inner.profile_picture),
    {
        match &self.list[row_index].inner.profile_picture {
            Some(p) => Some(p.as_str()),
            None => None,
        }
    }

    /// Takes the profile picture path that storage kept for the contact at
    /// `row_index` (`stored`, `None` when storing failed); whether it did.
    pub fn set_profile_picture(&mut self, row_index: usize, stored: Option<Option<String>>) -> (ok: bool)
        requires
            row_index < old(self).list@.len(),
        ensures
            ok == stored is Some,
            !ok ==> *final(self) == *old(self),
            ok ==> final(self).list@.len() == old(self).list@.len() && final(self).list@[row_index as int].inner.profile_picture
                == stored.unwrap() && forall|i: int| 0 <= i < old(self).list@.len() && i != row_index ==> #[trigger] final(self).list@[i] == old(self).list@[i],
    {
        let path = match stored {
            Some(p) => p,
            None => {
                return false;
            },
        };
        let mut c = copy_contact(&self.list[row_index].inner);
        c.profile_picture = path;
        self.set_contact(row_index, c);
        true
    }

    /// The color of the contact at `row_index`.
    pub fn color(&self, row_index: usize) -> (c: u32)
        requires
            row_index < self.list@.len(),
        ensures
            c == self.list@[row_index as int].inner.color,
    {
        self.list[row_index].inner.color
    }

    /// Sets the color of the contact at `row_index` once storage did
    /// (`stored`); whether it did.
    pub fn set_color(&mut self, row_index: usize, color: u32, stored: bool) -> (ok: bool)
        requires
            row_index < old(self).list@.len(),
        ensures
            ok == stored,
            !ok ==> *final(self) == *old(self),
            ok ==> final(self).list@.len() == old(self).list@.len() && final(self).list@[row_index as int].inner.color == color
                && forall|i: int| 0 <= i < old(self).list@.len() && i != row_index ==> #[trigger] final(self).list@[i] == old(self).list@[i],
    {
        if !stored {
            return false;
        }
        let mut c = copy_contact(&self.list[row_index].inner);
        c.color = color;
        self.set_contact(row_index, c);
        true
    }

    /// The status number of the contact at `row_index`.
    pub fn status(&self, row_index: usize) -> (s: u8)
        requires
            row_index < self.list@.len(),
        ensures
            s == match self.list@[row_index as int].inner.status {
                ContactStatus::Active => 0u8,
                ContactStatus::Archived => 1u8,
                ContactStatus::Deleted => 2u8,
            },
    {
        match self.list[row_index].inner.status {
            ContactStatus::Active => 0,
            ContactStatus::Archived => 1,
            ContactStatus::Deleted => 2,
        }
    }

    /// Sets the status of the contact at `row_index` from its number
    /// (0 active, 1 archived, 2 deleted) once storage did (`stored`); `false`
    /// for another number or when storage failed.
    pub fn set_status(&mut self, row_index: usize, status: u8, stored: bool) -> (ok: bool)
        requires
            row_index < old(self).list@.len(),
        ensures
            ok == (status <= 2 && stored),
            !ok ==> *final(self) == *old(self),
            ok ==> final(self).list@.len() == old(self).list@.len() && final(self).list@[row_index as int].inner.status == (
                if status == 0 { ContactStatus::Active } else if status == 1 { ContactStatus::Archived } else { ContactStatus::Deleted })
                && forall|i: int| 0 <= i < old(self).list@.len() && i != row_index ==> #[trigger] final(self).list@[i] == old(self).list@[i],
            ok ==> {
                let before = old(self).list@[row_index as int];
                let after = final(self).list@[row_index as int];
                &&& after.matched == before.matched
                &&& after.inner.id@ == before.inner.id@
                &&& after.inner.name == before.inner.name
                &&& after.inner.pairwise_conversation == before.inner.pairwise_conversation
                &&& after.inner.profile_picture == before.inner.profile_picture
                &&& after.inner.color == before.inner.color
            },
            final(self).calls == old(self).calls,
            final(self).signals == old(self).signals,
            final(self).filter == old(self).filter,
            final(self).filter_regex == old(self).filter_regex,
    {
        let s = if status == 0 {
            ContactStatus::Active
        } else if status == 1 {
            ContactStatus::Archived
        } else if status == 2 {
            ContactStatus::Deleted
        } else {
            return false;
        };
        if !stored {
            return false;
        }
        let mut c = copy_contact(&self.list[row_index].inner);
        c.status = s;
        self.set_contact(row_index, c);
        true
    }

    /// Whether the contact at `row_index` passes the filter.
    pub fn matched(&self, row_index: usize) -> (m: bool)
        requires
            row_index < self.list@.len(),
        ensures
            m == self.list@[row_index as int].matched,
    {
        self.list[row_index].matched
    }

    /// Sets whether the contact at `row_index` passes the filter.
    pub fn set_matched(&mut self, row_index: usize, value: bool) -> (ok: bool)
        requires
            row_index < old(self).list@.len(),
        ensures
            ok,
            final(self).list@.len() == old(self).list@.len(),
            final(self).list@[row_index as int].matched == value,
            final(self).list@[row_index as int].inner.id@ == old(self).list@[row_index as int].inner.id@,
            forall|i: int| 0 <= i < old(self).list@.len() && i != row_index ==> #[trigger] final(self).list@[i] == old(self).list@[i],
    {
        let c = copy_contact(&self.list[row_index].inner);
        self.list.set(row_index, ContactsItem { inner: c, matched: value });
        true
    }

    /// The filter's text.
    pub fn filter(&self) -> (f: &str)
        ensures
            f@ == self.filter.raw@,
    {
        self.filter.raw.as_str()
    }

    /// Sets the flag of every row: `flags` gives the new flag by row.
    fn set_flags(&mut self, flags: &Vec<bool>)
        requires
            flags@.len() == old(self).list@.len(),
        ensures
            final(self).list@.len() == old(self).list@.len(),
            forall|i: int| #![trigger final(self).list@[i]] 0 <= i < old(self).list@.len() ==> same_contact(final(self).list@[i].inner,
                old(self).list@[i].inner) && final(self).list@[i].matched == flags@[i],
            final(self).calls == old(self).calls,
            final(self).signals == old(self).signals,
            final(self).filter == old(self).filter,
            final(self).filter_regex == old(self).filter_regex,
    {
        let n = self.list.len();
        let mut i: usize = 0;
        while i < n
            invariant
                n == self.list@.len(),
                n == old(self).list@.len(),
                flags@.len() == n,
                i <= n,
                forall|j: int| #![trigger self.list@[j]] 0 <= j < n ==> same_contact(self.list@[j].inner, old(self).list@[j].inner),
                forall|j: int| #![trigger self.list@[j]] 0 <= j < i ==> self.list@[j].matched == flags@[j],
                self.calls == old(self).calls,
                self.signals == old(self).signals,
                self.filter == old(self).filter,
                self.filter_regex == old(self).filter_regex,
            decreases n - i,
        {
            let c = copy_contact(&self.list[i].inner);
            let ghost l0 = self.list@;
            self.list.set(i, ContactsItem { inner: c, matched: flags[i] });
            proof {
                assert forall|j: int| #![trigger self.list@[j]] 0 <= j < n implies same_contact(self.list@[j].inner, old(self).list@[j].inner)
                    && (j < i + 1 ==> self.list@[j].matched == flags@[j]) by {
                    if j != i {
                        assert(self.list@[j] == l0[j]);
                    }
                }
            }
            i = i + 1;
        }
    }

    /// Shows every contact and empties the filter, keeping its mode; the view
    /// hears of every row and of the filter.
    pub fn clear_filter(&mut self)
        ensures
            final(self).list@.len() == old(self).list@.len(),
            forall|i: int| #![trigger final(self).list@[i]] 0 <= i < old(self).list@.len() ==> final(self).list@[i].matched,
            final(self).calls@ == old(self).calls@.push(all_rows_changed(old(self).list@.len())),
            final(self).filter.raw@.len() == 0 && final(self).filter.regex == old(self).filter_regex,
            final(self).signals@ == old(self).signals@.push(FilterSignal::FilterChanged),
    {
        let n = self.list.len();
        let mut flags: Vec<bool> = Vec::new();
        let mut i: usize = 0;
        while i < n
            invariant
                i <= n,
                flags@.len() == i,
                forall|j: int| 0 <= j < i ==> #[trigger] flags@[j],
            decreases n - i,
        {
            flags.push(true);
            i = i + 1;
        }
        self.set_flags(&flags);
        let last = self.list.len().saturating_sub(1);
        self.calls.push(ModelCall::DataChanged { first: 0, last });
        self.filter = PatternState { raw: String::new(), regex: self.filter_regex };
        self.signals.push(FilterSignal::FilterChanged);
    }

    /// Matches every contact against the filter: `outcomes[i]` is what the
    /// pattern engine says of the name (when there is one) and of the id of
    /// the contact at row `i`. The view hears of every row.
    pub fn inner_filter(&mut self, outcomes: &Vec<(bool, bool)>)
        requires
            outcomes@.len() == old(self).list@.len(),
        ensures
            final(self).list@.len() == old(self).list@.len(),
            forall|i: int| #![trigger final(self).list@[i]] 0 <= i < old(self).list@.len() ==> final(self).list@[i].matched
                == contact_passes(old(self).list@[i].inner, old(self).list@[i].matched, outcomes@[i].0, outcomes@[i].1)
                && same_contact(final(self).list@[i].inner, old(self).list@[i].inner),
            final(self).calls@ == old(self).calls@.push(all_rows_changed(old(self).list@.len())),
            final(self).filter == old(self).filter,
            final(self).filter_regex == old(self).filter_regex,
            final(self).signals == old(self).signals,
            forall|i: int|
                0 <= i < old(self).list@.len() && old(self).list@[i].inner.name is Some ==> (
                #[trigger] final(self).list@[i].matched <==> (outcomes@[i].0 || outcomes@[i].1)),
            forall|i: int|
                0 <= i < old(self).list@.len() && old(self).list@[i].inner.name is None ==> (
                #[trigger] final(self).list@[i].matched <==> (old(self).list@[i].matched || outcomes@[i].1)),
    {
        let n = self.list.len();
        let mut flags: Vec<bool> = Vec::new();
        let mut i: usize = 0;
        while i < n
            invariant
                n == self.list@.len(),
                outcomes@.len() == n,
                i <= n,
                flags@.len() == i,
                forall|j: int| 0 <= j < i ==> #[trigger] flags@[j] == contact_passes(self.list@[j].inner, self.list@[j].matched, outcomes@[j].0, outcomes@[j].1),
            decreases n - i,
        {
            let (name_match, id_match) = outcomes[i];
            let m = match &self.list[i].inner.name {
                Some(_) => name_match,
                None => self.list[i].matched,
            };
            flags.push(m || id_match);
            i = i + 1;
        }
        self.set_flags(&flags);
        let last = self.list.len().saturating_sub(1);
        self.calls.push(ModelCall::DataChanged { first: 0, last });
    }

    /// Sets the filter text: an empty one clears the filter; otherwise the
    /// text, in the current mode, becomes the filter when it compiles
    /// (`compiles`), the view hears of it and the contacts are matched again.
    pub fn set_filter(&mut self, pattern: String, compiles: bool, outcomes: &Vec<(bool, bool)>)
        requires
            outcomes@.len() == old(self).list@.len(),
        ensures
            pattern@.len() > 0 && !compiles ==> *final(self) == *old(self),
            pattern@.len() == 0 ==> final(self).filter.raw@.len() == 0,
            pattern@.len() > 0 && compiles ==> final(self).filter.raw@ == pattern@ && final(self).filter.regex
                == old(self).filter_regex && final(self).signals@ == old(self).signals@.push(FilterSignal::FilterChanged)
                && forall|i: int| #![trigger final(self).list@[i]] 0 <= i < old(self).list@.len() ==> final(self).list@[i].matched
                == contact_passes(old(self).list@[i].inner, old(self).list@[i].matched, outcomes@[i].0, outcomes@[i].1),
    {
        if pattern.as_str().is_empty() {
            self.clear_filter();
            return;
        }
        if !compiles {
            return;
        }
        self.filter = PatternState { raw: pattern, regex: self.filter_regex };
        self.signals.push(FilterSignal::FilterChanged);
        self.inner_filter(outcomes);
    }

    /// Switches the filter to regular-expression mode or back when its text
    /// compiles in that mode (`compiles`); the view hears of it and the
    /// contacts are matched again.
    pub fn set_filter_regex(&mut self, use_regex: bool, compiles: bool, outcomes: &Vec<(bool, bool)>)
        requires
            outcomes@.len() == old(self).list@.len(),
        ensures
            !compiles ==> *final(self) == *old(self),
            compiles ==> final(self).filter_regex == use_regex && final(self).filter.regex == use_regex
                && final(self).filter.raw == old(self).filter.raw
                && final(self).signals@ == old(self).signals@.push(FilterSignal::FilterRegexChanged),
    {
        if !compiles {
            return;
        }
        self.filter.regex = use_regex;
        self.filter_regex = use_regex;
        self.signals.push(FilterSignal::FilterRegexChanged);
        self.inner_filter(outcomes);
    }

    /// Toggles the filter mode and returns the new mode. The flag always takes
    /// the new mode and the view hears of it once. When the filter's text
    /// compiles in the new mode (`compiles`) the filter follows and the contacts
    /// are matched again; otherwise the filter and the list stay as they were.
    pub fn toggle_filter_regex(&mut self, compiles: bool, outcomes: &Vec<(bool, bool)>) -> (toggled: bool)
        requires
            outcomes@.len() == old(self).list@.len(),
        ensures
            toggled == !old(self).filter_regex,
            final(self).filter_regex == toggled,
            final(self).signals@ == old(self).signals@.push(FilterSignal::FilterRegexChanged),
            compiles ==> final(self).filter.regex == toggled && final(self).filter.raw == old(self).filter.raw,
            !compiles ==> final(self).filter == old(self).filter && final(self).list@ == old(self).list@
                && final(self).calls@ == old(self).calls@,
    {
        let toggled = !self.filter_regex;
        self.set_filter_regex(toggled, compiles, outcomes);
        if !compiles {
            self.filter_regex = toggled;
            self.signals.push(FilterSignal::FilterRegexChanged);
        }
        toggled
    }

    /// The number of contacts.
    pub fn row_count(&self) -> (n: usize)
        ensures
            n == self.list@.len(),
    {
        self.list.len()
    }
}

} // verus!
