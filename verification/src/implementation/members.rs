//! The classic list of the members of a conversation: a filtered contact list
//! bound to one conversation.
use super::users::{Contact, FilterSignal, Users};
use crate::signal::ModelCall;
use crate::types::{id_from_slice, ConversationId, UserId};
use crate::users::{cached_through, User};
use vstd::prelude::*;

verus! {

/// An update for the members of a conversation.
pub enum MemberUpdate {
    /// The answer to an invitation: who, and whether they accepted.
    ReqResp(UserId, bool),
}

/// The classic list of the members of a conversation.
pub struct Members {
    pub users: Users,
    pub conversation_id: Option<ConversationId>,
}

impl Members {
    /// An empty list, bound to no conversation.
    pub fn new() -> (m: Members)
        ensures
            m.users.list@.len() == 0,
            m.users.filter.raw@.len() == 0,
            !m.users.filter_regex,
            m.conversation_id is None,
    {
        Members { users: Users::new(None), conversation_id: None }
    }

    /// The id of the conversation.
    pub fn conversation_id(&self) -> (c: Option<&ConversationId>)
        ensures
            match self.conversation_id {
                Some(id) => c == Some(&id),
                None => c is None,
            },
    {
        match &self.conversation_id {
            Some(id) => Some(id),
            None => None,
        }
    }

    /// Loads the members of the conversation whose id is the bytes
    /// `conversation_id`, `members` being what storage read for it (`None` when
    /// reading failed): they become the rows, all shown, and the view hears of
    /// them and of the id. Nothing happens when the list is bound already, no
    /// id or bytes that are no id are given, or reading failed. The id itself
    /// is not recorded.
    pub fn set_conversation_id(&mut self, conversation_id: Option<&[u8]>, members: Option<Vec<Contact>>)
        ensures
            final(self).conversation_id == old(self).conversation_id,
            final(self).users.filter == old(self).users.filter,
            old(self).conversation_id is Some || members is None || !(conversation_id matches Some(b)
                && b@.len() == 32) ==> *final(self) == *old(self),
            old(self).conversation_id is None && members is Some && (conversation_id matches Some(b)
                && b@.len() == 32) ==> {
                let v = members.unwrap()@;
                &&& final(self).users.list@.len() == v.len()
                &&& forall|i: int|
                    0 <= i < v.len() ==> #[trigger] final(self).users.list@[i].id@ == v[i].id@
                        && final(self).users.list@[i].matched
                &&& final(self).users.calls@ == old(self).users.calls@ + seq![
                    ModelCall::BeginInsertRows { first: 0, last: if v.len() == 0 { 0 } else { (v.len() - 1) as usize } },
                    ModelCall::EndInsertRows,
                ]
                &&& final(self).users.signals@ == old(self).users.signals@.push(FilterSignal::ConversationIdChanged)
            },
    {
        if self.conversation_id.is_some() {
            return;
        }
        let bytes = match conversation_id {
            Some(b) => b,
            None => {
                return;
            },
        };
        if id_from_slice(bytes).is_none() {
            return;
        }
        let members = match members {
            Some(m) => m,
            None => {
                return;
            },
        };
        let last = members.len().saturating_sub(1);
        self.users.calls.push(ModelCall::BeginInsertRows { first: 0, last });
        let mut list: Vec<User> = Vec::new();
        let mut i: usize = 0;
        while i < members.len()
            invariant
                i <= members@.len(),
                list@.len() == i,
                forall|j: int| 0 <= j < i ==> #[trigger] list@[j].id@ == members@[j].id@ && list@[j].matched,
            decreases members@.len() - i,
        {
            let id = members[i].id.clone();
            let ghost before = list@;
            list.push(User { id, matched: true });
            proof {
                assert forall|j: int| 0 <= j < i + 1 implies #[trigger] list@[j].id@ == members@[j].id@
                    && list@[j].matched by {
                    if j < i {
                        assert(list@[j] == before[j]);
                    }
                }
            }
            i = i + 1;
        }
        self.users.list = list;
        self.users.calls.push(ModelCall::EndInsertRows);
        self.users.signals.push(FilterSignal::ConversationIdChanged);
    }

    /// Appends the user `user_id` that storage just made a member (`stored`),
    /// with what the cache holds of them (`cached`), shown as the filter says
    /// (`matched`). `false`, with nothing changed, when the list is bound to no
    /// conversation, storage failed or the user is not cached.
    pub fn add_to_conversation(&mut self, user_id: UserId, stored: bool, cached: Option<&Contact>, matched: bool) -> (ok: bool)
        ensures
            ok == (old(self).conversation_id is Some && stored && cached is Some),
            !ok ==> *final(self) == *old(self),
            ok ==> final(self).users.list@ == old(self).users.list@.push((User { id: user_id, matched }))
                && final(self).users.calls@ == old(self).users.calls@ + seq![
                ModelCall::BeginInsertRows { first: old(self).users.list@.len() as usize, last: old(self).users.list@.len() as usize },
                ModelCall::EndInsertRows,
            ] && final(self).conversation_id == old(self).conversation_id,
    {
        if self.conversation_id.is_none() || !stored || cached.is_none() {
            return false;
        }
        self.users.push_user(user_id, matched);
        true
    }

    /// Whether storage removed the member at `index` (`removed`): the list
    /// must be bound and the row must exist. The rows stay as they are.
    pub fn remove_from_conversation_by_index(&self, index: u64, removed: bool) -> (ok: bool)
        ensures
            ok == (self.conversation_id is Some && (index as usize) < self.users.list@.len() && removed),
    {
        if self.conversation_id.is_none() {
            return false;
        }
        let ix = index as usize;
        if ix >= self.users.list.len() {
            return false;
        }
        removed
    }

    /// Takes in the answer to an invitation, `cached_match` being what the
    /// filter says of the invitee's cached entry (`None` when not cached, and
    /// the answer is passed over): the invitee becomes a row, without telling
    /// the view. `false` when the list is bound to no conversation.
    pub fn poll_update(&mut self, update: &MemberUpdate, cached_match: Option<bool>) -> (ok: bool)
        ensures
            ok == old(self).conversation_id is Some,
            !ok || cached_match is None ==> *final(self) == *old(self),
            ok && cached_match is Some ==> match update {
                MemberUpdate::ReqResp(uid, _) => final(self).users.list@ == old(self).users.list@.push(
                    (User { id: *uid, matched: cached_match.unwrap() }),
                ) && final(self).users.calls == old(self).users.calls,
            },
    {
        if self.conversation_id.is_none() {
            return false;
        }
        match update {
            MemberUpdate::ReqResp(uid, _) => {
                let matched = match cached_match {
                    Some(m) => m,
                    None => {
                        return true;
                    },
                };
                self.users.list.push(User { id: uid.clone(), matched });
            },
        }
        true
    }

    /// The filter's text.
    pub fn filter(&self) -> (f: &str)
        ensures
            f@ == self.users.filter.raw@,
    {
        self.users.filter()
    }

    /// Sets the filter text, as the contact list does.
    pub fn set_filter(&mut self, pattern: String, compiles: bool, outcomes: &Vec<Option<bool>>)
        requires
            outcomes@.len() == old(self).users.list@.len(),
        ensures
            final(self).conversation_id == old(self).conversation_id,
            pattern@.len() == 0 ==> final(self).users.filter.raw@.len() == 0 && forall|i: int|
                0 <= i < old(self).users.list@.len() ==> #[trigger] final(self).users.list@[i].matched,
            pattern@.len() > 0 && !compiles ==> *final(self) == *old(self),
            pattern@.len() > 0 && compiles ==> final(self).users.filter.raw@ == pattern@ && forall|i: int|
                0 <= i < old(self).users.list@.len() && cached_through(outcomes@, i) ==> #[trigger] final(self).users.list@[i].matched == outcomes@[i].unwrap(),
    {
        self.users.set_filter(pattern, compiles, outcomes);
    }

    /// Switches the filter's mode, as the contact list does.
    pub fn set_filter_regex(&mut self, use_regex: bool, compiles: bool, outcomes: &Vec<Option<bool>>)
        requires
            outcomes@.len() == old(self).users.list@.len(),
        ensures
            final(self).conversation_id == old(self).conversation_id,
            !compiles ==> *final(self) == *old(self),
            compiles ==> final(self).users.filter_regex == use_regex && final(self).users.filter.regex
                == use_regex,
    {
        self.users.set_filter_regex(use_regex, compiles, outcomes);
    }

    /// Toggles the filter mode, as the contact list does; the new mode.
    pub fn toggle_filter_regex(&mut self, compiles: bool, outcomes: &Vec<Option<bool>>) -> (toggled: bool)
        requires
            outcomes@.len() == old(self).users.list@.len(),
        ensures
            final(self).conversation_id == old(self).conversation_id,
            toggled == !old(self).users.filter_regex,
            final(self).users.filter_regex == toggled,
            final(self).users.signals@ == old(self).users.signals@.push(FilterSignal::FilterRegexChanged),
            compiles ==> final(self).users.filter.regex == toggled && final(self).users.filter.raw
                == old(self).users.filter.raw,
            !compiles ==> final(self).users.filter == old(self).users.filter && final(self).users.list@
                == old(self).users.list@,
    {
        self.users.toggle_filter_regex(compiles, outcomes)
    }

    /// The name the view shows for the member at `row_index`, as the contact
    /// list shows it.
    pub fn display_name(&self, row_index: usize, cached: Option<&Contact>) -> (name: String)
        ensures
            row_index >= self.users.list@.len() || cached is None ==> name@.len() == 0,
            row_index < self.users.list@.len() && cached is Some ==> name@ == match cached.unwrap().name {
                Some(n) => n@,
                None => cached.unwrap().id@,
            },
    {
        self.users.display_name(row_index, cached)
    }

    /// The cache entry of the member at `row_index` with the name `name`, as
    /// the contact list makes it.
    pub fn set_name(&self, row_index: usize, cached: Option<Contact>, name: Option<String>, stored: bool) -> (updated: Option<Contact>)
        ensures
            updated is Some <==> (row_index < self.users.list@.len() && cached is Some && stored),
            updated is Some ==> updated == Some((Contact { name, ..cached.unwrap() })),
    {
        self.users.set_name(row_index, cached, name, stored)
    }

    /// The cache entry of the member at `row_index` with the profile picture
    /// that storage kept, as the contact list makes it.
    pub fn set_profile_picture(&self, row_index: usize, cached: Option<Contact>, stored: Option<Option<String>>) -> (updated: Option<Contact>)
        ensures
            updated is Some <==> (row_index < self.users.list@.len() && cached is Some && stored is Some),
            updated is Some ==> updated == Some((Contact { profile_picture: stored.unwrap(), ..cached.unwrap() })),
    {
        self.users.set_profile_picture(row_index, cached, stored)
    }

    /// The cache entry of the member at `row_index` with the color `color`, as
    /// the contact list makes it.
    pub fn set_color(&self, row_index: usize, cached: Option<Contact>, color: u32, stored: bool) -> (updated: Option<Contact>)
        ensures
            updated is Some <==> (row_index < self.users.list@.len() && cached is Some && stored),
            updated is Some ==> updated == Some((Contact { color, ..cached.unwrap() })),
    {
        self.users.set_color(row_index, cached, color, stored)
    }

    /// The number of members.
    pub fn row_count(&self) -> (n: usize)
        ensures
            n == self.users.list@.len(),
    {
        self.users.row_count()
    }
}

} // verus!
