//! The builder of a new group conversation: the members picked so far, and a title.
use crate::interface::conversation_builder::{ConversationBuilderEmitter, ConversationBuilderList};
use crate::signal::{after_call, ModelCall};
use crate::types::UserId;
use crate::implementation::users::Contact;
use vstd::prelude::*;

verus! {

/// Whether `id` is among `list`, by the text of the ids.
pub open spec fn has_user(list: Seq<UserId>, id: UserId) -> bool {
    exists|i: int| 0 <= i < list.len() && #[trigger] list[i]@ == id@
}

/// What adding the user `u` did to the members `before`, the local user being
/// `local`, giving `after` and `ok`: the local user and users already picked
/// are accepted without change, a user that is not a contact is refused, and
/// any other is appended.
pub open spec fn member_added(before: Seq<UserId>, local: UserId, u: UserId, is_contact: bool, after: Seq<UserId>, ok: bool) -> bool {
    if u@ == local@ || has_user(before, u) {
        ok && after == before
    } else if !is_contact {
        !ok && after == before
    } else {
        ok && after == before.push(u)
    }
}

/// What dropping the user `u` did to the members `before`, giving `after` and
/// `ok`: an entry with that id is gone, or there was none.
pub open spec fn member_removed(before: Seq<UserId>, u: UserId, after: Seq<UserId>, ok: bool) -> bool {
    &&& ok <==> has_user(before, u)
    &&& !ok ==> after == before
    &&& ok ==> exists|p: int| 0 <= p < before.len() && before[p]@ == u@ && after == before.remove(p)
}

/// No two members have the same id.
pub open spec fn distinct_members(list: Seq<UserId>) -> bool {
    forall|i: int, j: int| 0 <= i < j < list.len() ==> list[i]@ != list[j]@
}

/// Adding a member never lists anyone twice.
pub proof fn members_stay_distinct(before: Seq<UserId>, local: UserId, u: UserId, is_contact: bool, after: Seq<UserId>, ok: bool)
    requires
        distinct_members(before),
        member_added(before, local, u, is_contact, after, ok),
    ensures
        distinct_members(after),
{
    if !(u@ == local@ || has_user(before, u)) && is_contact {
        assert forall|i: int, j: int| 0 <= i < j < after.len() implies after[i]@ != after[j]@ by {
            if j == before.len() {
                assert(after[i] == before[i]);
                if before[i]@ == u@ {
                    assert(has_user(before, u));
                }
            } else {
                assert(after[i] == before[i] && after[j] == before[j]);
            }
        }
    }
}

/// Dropping a user right after adding them as a new member gives back the
/// members as they were.
pub proof fn add_then_remove_member_restores(
    l0: Seq<UserId>,
    local: UserId,
    u: UserId,
    l1: Seq<UserId>,
    ok1: bool,
    l2: Seq<UserId>,
    ok2: bool,
)
    requires
        u@ != local@,
        !has_user(l0, u),
        member_added(l0, local, u, true, l1, ok1),
        member_removed(l1, u, l2, ok2),
    ensures
        l2 == l0,
{
    assert(l1 == l0.push(u));
    assert(l1[l0.len() as int] == u);
    assert(has_user(l1, u));
    let p = choose|p: int| 0 <= p < l1.len() && l1[p]@ == u@ && l2 == l1.remove(p);
    if p < l0.len() {
        assert(l0[p] == l1[p]);
        assert(has_user(l0, u));
    }
    assert(l2 =~= l0);
}

/// The index of the first id in `list` equal to `id`.
pub fn user_position(list: &Vec<UserId>, id: &UserId) -> (pos: Option<usize>)
    ensures
        pos matches Some(p) ==> p < list@.len() && list@[p as int]@ == id@ && forall|j: int|
            0 <= j < p ==> list@[j]@ != id@,
        pos is None ==> !has_user(list@, *id),
{
    let mut i: usize = 0;
    while i < list.len()
        invariant
            i <= list@.len(),
            forall|j: int| 0 <= j < i ==> list@[j]@ != id@,
        decreases list@.len() - i,
    {
        if list[i].eq(id) {
            return Some(i);
        }
        i = i + 1;
    }
    None
}

/// A conversation in the making.
pub struct ConversationBuilder {
    pub emit: ConversationBuilderEmitter,
    pub model: ConversationBuilderList,
    pub list: Vec<UserId>,
    pub title: Option<String>,
    pub local_id: UserId,
}

impl ConversationBuilder {
    /// A builder with no members and no title, for the local user `local_id`.
    pub fn new(emit: ConversationBuilderEmitter, model: ConversationBuilderList, local_id: UserId) -> (b:
        ConversationBuilder)
        ensures
            b.list@.len() == 0,
            b.title is None,
            b.local_id == local_id,
    {
        ConversationBuilder { emit, model, list: Vec::new(), title: None, local_id }
    }

    /// Adds the user `user_id` as a member. The local user and users already
    /// picked are accepted without change; a user that is not a contact
    /// (`is_contact`) is refused.
    pub fn add_member(&mut self, user_id: UserId, is_contact: bool) -> (ok: bool)
        ensures
            final(self).local_id == old(self).local_id,
            final(self).title == old(self).title,
            member_added(old(self).list@, old(self).local_id, user_id, is_contact, final(self).list@, ok),
            final(self).model.target() == old(self).model.target(),
            final(self).list@ == old(self).list@ ==> final(self).model@ == old(self).model@,
            final(self).list@ != old(self).list@ ==> final(self).model@ == after_call(
                after_call(
                    old(self).model@,
                    old(self).model.target(),
                    ModelCall::BeginInsertRows { first: old(self).list@.len() as usize, last: old(self).list@.len() as usize },
                ),
                old(self).model.target(),
                ModelCall::EndInsertRows,
            ),
    {
        if user_id.eq(&self.local_id) {
            return true;
        }
        if user_position(&self.list, &user_id).is_some() {
            return true;
        }
        if !is_contact {
            return false;
        }
        let n = self.list.len();
        self.model.begin_insert_rows(n, n);
        self.list.push(user_id);
        self.model.end_insert_rows();
        true
    }

    /// Drops the member `user_id` (its first entry); `false` when it is no member.
    pub fn remove_member_by_id(&mut self, user_id: &UserId) -> (ok: bool)
        ensures
            member_removed(old(self).list@, *user_id, final(self).list@, ok),
            final(self).model.target() == old(self).model.target(),
            !ok ==> final(self).model@ == old(self).model@,
    {
        let ix = match user_position(&self.list, user_id) {
            Some(ix) => ix,
            None => {
                return false;
            },
        };
        self.model.begin_remove_rows(ix, ix);
        self.list.remove(ix);
        self.model.end_remove_rows();
        true
    }

    /// Drops the member at row `index`; `false` when there is no such row.
    pub fn remove_member_by_index(&mut self, index: u64) -> (ok: bool)
        ensures
            ok <==> index < old(self).list@.len(),
            !ok ==> final(self).list@ == old(self).list@,
            ok ==> final(self).list@ == old(self).list@.remove(index as int),
    {
        if index >= self.list.len() as u64 {
            return false;
        }
        let ix = index as usize;
        self.model.begin_remove_rows(ix, ix);
        self.list.remove(ix);
        self.model.end_remove_rows();
        true
    }

    /// Drops the last member, if any.
    pub fn remove_last(&mut self)
        ensures
            old(self).list@.len() == 0 ==> final(self).list@ == old(self).list@,
            old(self).list@.len() > 0 ==> final(self).list@ == old(self).list@.drop_last(),
    {
        let last = self.list.len().saturating_sub(1);
        self.model.begin_remove_rows(last, last);
        let _ = self.list.pop();
        self.model.end_remove_rows();
    }

    /// Adds the local user to the members, which are then those of the
    /// conversation to start.
    pub fn finalize(&mut self) -> (members: &Vec<UserId>)
        ensures
            members@ == old(self).list@.push(old(self).local_id),
            final(self).list@ == old(self).list@.push(old(self).local_id),
    {
        let local = self.local_id.clone();
        self.list.push(local);
        &self.list
    }

    /// Sets the title.
    pub fn set_title(&mut self, title: String)
        ensures
            final(self).title == Some(title),
            final(self).list@ == old(self).list@,
    {
        self.title = Some(title);
    }

    /// The number of members.
    pub fn row_count(&self) -> (n: usize)
        ensures
            n == self.list@.len(),
    {
        self.list.len()
    }

    /// The id of the member at `index`, empty past the end.
    pub fn member_id(&self, index: usize) -> (id: &str)
        ensures
            index < self.list@.len() ==> id@ == self.list@[index as int]@,
            index >= self.list@.len() ==> id@ == ""@,
    {
        if index < self.list.len() {
            self.list[index].as_str()
        } else {
            ""
        }
    }

    /// The name the view shows for the member at `index`, `cached` being what
    /// the cache holds of them: their name, else their id; empty past the end
    /// or when nothing is cached.
    pub fn member_display_name(&self, index: usize, cached: Option<&Contact>) -> (name: String)
        ensures
            index >= self.list@.len() || cached is None ==> name@.len() == 0,
            index < self.list@.len() && cached is Some ==> name@ == match cached.unwrap().name {
                Some(n) => n@,
                None => cached.unwrap().id@,
            },
    {
        if index >= self.list.len() {
            return String::new();
        }
        match cached {
            Some(c) => match &c.name {
                Some(n) => n.clone(),
                None => c.id.clone(),
            },
            None => String::new(),
        }
    }

    /// The color of the member at `index`; 0 past the end or when nothing is cached.
    pub fn member_color(&self, index: usize, cached: Option<&Contact>) -> (c: u32)
        ensures
            c == if index < self.list@.len() && cached is Some { cached.unwrap().color } else { 0 },
    {
        if index >= self.list.len() {
            return 0;
        }
        match cached {
            Some(c) => c.color,
            None => 0,
        }
    }

}

} // verus!
