//! The classic models: simpler lists that talk to the view through outboxes,
//! kept beside the current ones.
pub mod messages;
pub mod conversation;
pub mod users;
pub mod members;
pub mod attachments;
pub mod message_builder;
pub mod config;
pub mod heraldstate;
pub mod heraldutils;
pub mod conversations;

use vstd::prelude::*;

verus! {

#[verifier::external_type_specification]
#[verifier::external_body]
#[verifier::reject_recursive_types(A)]
pub struct ExImRcVector<A>(im_rc::Vector<A>);

/// A contact of the first contact list: its number and name.
#[derive(Clone)]
pub struct ContactsItem {
    pub contact_id: i64,
    pub name: String,
}

/// The contacts that an `im_rc` vector holds, in order.
pub uninterp spec fn contact_items(v: im_rc::Vector<ContactsItem>) -> Seq<ContactsItem>;

/// `im_rc::Vector::new`: an empty vector.
#[verifier::external_body]
fn items_new() -> (v: im_rc::Vector<ContactsItem>)
    ensures
        contact_items(v).len() == 0,
{
    im_rc::Vector::new()
}

/// `im_rc::Vector::len`: the number of contacts.
#[verifier::external_body]
fn items_len(v: &im_rc::Vector<ContactsItem>) -> (n: usize)
    ensures
        n == contact_items(*v).len(),
{
    v.len()
}

/// `im_rc::Vector::get`: the contact at `index`, `None` past the end.
#[verifier::external_body]
fn items_get(v: &im_rc::Vector<ContactsItem>, index: usize) -> (c: Option<&ContactsItem>)
    ensures
        index < contact_items(*v).len() ==> c == Some(&contact_items(*v)[index as int]),
        index >= contact_items(*v).len() ==> c is None,
{
    v.get(index)
}

/// `im_rc::Vector::push_front`: puts `item` first.
#[verifier::external_body]
fn items_push_front(v: &mut im_rc::Vector<ContactsItem>, item: ContactsItem)
    ensures
        contact_items(*final(v)) == seq![item] + contact_items(*old(v)),
{
    v.push_front(item)
}

/// `im_rc::Vector::push_back`: puts `item` last.
#[verifier::external_body]
fn items_push_back(v: &mut im_rc::Vector<ContactsItem>, item: ContactsItem)
    ensures
        contact_items(*final(v)) == contact_items(*old(v)).push(item),
{
    v.push_back(item)
}

/// `im_rc::Vector::remove`: takes out the contact at `index`; it panics past
/// the end, which `requires` rules out.
#[verifier::external_body]
fn items_remove(v: &mut im_rc::Vector<ContactsItem>, index: usize) -> (c: ContactsItem)
    requires
        index < contact_items(*old(v)).len(),
    ensures
        c == contact_items(*old(v))[index as int],
        contact_items(*final(v)) == contact_items(*old(v)).remove(index as int),
{
    v.remove(index)
}

/// `im_rc::Vector::set`: replaces the contact at `index` by `item`, handing
/// back the one it held; it panics past the end, which `requires` rules out.
#[verifier::external_body]
fn items_set(v: &mut im_rc::Vector<ContactsItem>, index: usize, item: ContactsItem) -> (c: ContactsItem)
    requires
        index < contact_items(*old(v)).len(),
    ensures
        c == contact_items(*old(v))[index as int],
        contact_items(*final(v)) == contact_items(*old(v)).update(index as int, item),
{
    v.set(index, item)
}

/// `ix` is the first index of a contact with number `id`, or `None` when none has it.
pub open spec fn first_with_id(items: Seq<ContactsItem>, id: i64, ix: Option<usize>) -> bool {
    match ix {
        Some(i) => i < items.len() && items[i as int].contact_id == id && forall|j: int|
            0 <= j < i ==> #[trigger] items[j].contact_id != id,
        None => forall|j: int| 0 <= j < items.len() ==> #[trigger] items[j].contact_id != id,
    }
}

/// The first contact list: contacts by number, newest first.
pub struct Contacts {
    pub list: im_rc::Vector<ContactsItem>,
}

impl Contacts {
    /// The contacts in the list.
    pub closed spec fn items(&self) -> Seq<ContactsItem> {
        contact_items(self.list)
    }

    /// The list of the contacts that storage holds (`all`, `None` when reading
    /// them failed, which leaves the list empty), in that order.
    pub fn new(all: Option<Vec<ContactsItem>>) -> (c: Contacts)
        ensures
            all is None ==> c.items().len() == 0,
            all matches Some(v) ==> c.items() == v@,
    {
        let mut list = items_new();
        match all {
            Some(v) => {
                let mut v = v;
                let ghost all_items = v@;
                let n = v.len();
                let mut i: usize = 0;
                while i < n
                    invariant
                        n == all_items.len(),
                        i <= n,
                        v@ == all_items.subrange(i as int, n as int),
                        contact_items(list) == all_items.subrange(0, i as int),
                    decreases n - i,
                {
                    let item = v.remove(0);
                    items_push_back(&mut list, item);
                    assert(all_items.subrange(0, i + 1) =~= all_items.subrange(0, i as int).push(item));
                    i = i + 1;
                }
                assert(all_items.subrange(0, n as int) =~= all_items);
            },
            None => {
                assert(contact_items(list) =~= Seq::<ContactsItem>::empty());
            },
        }
        Contacts { list }
    }

    /// The first contact with number `id`.
    fn position(&self, id: i64) -> (ix: Option<usize>)
        ensures
            first_with_id(self.items(), id, ix),
    {
        let n = items_len(&self.list);
        let mut i: usize = 0;
        while i < n
            invariant
                n == self.items().len(),
                i <= n,
                forall|j: int| 0 <= j < i ==> #[trigger] self.items()[j].contact_id != id,
            decreases n - i,
        {
            let c = items_get(&self.list, i).unwrap();
            if c.contact_id == id {
                return Some(i);
            }
            i = i + 1;
        }
        None
    }

    /// Puts the contact named `name` first, with the number that storage gave
    /// it (`added`, `None` when adding failed); that number, or -1 on failure.
    pub fn add(&mut self, name: String, added: Option<i64>) -> (id: i64)
        ensures
            added is None ==> id == -1 && final(self).items() == old(self).items(),
            added matches Some(n) ==> id == n && final(self).items() == seq![
                (ContactsItem { contact_id: n, name }),
            ] + old(self).items(),
    {
        let contact_id = match added {
            Some(n) => n,
            None => {
                return -1;
            },
        };
        items_push_front(&mut self.list, ContactsItem { contact_id, name });
        contact_id
    }

    /// Removes the first contact numbered `id` once storage deleted it
    /// (`deleted`); whether it did.
    pub fn remove(&mut self, id: i64, deleted: bool) -> (ok: bool)
        ensures
            !ok ==> final(self).items() == old(self).items(),
            ok <==> (deleted && exists|j: int| 0 <= j < old(self).items().len() && old(self).items()[j].contact_id == id),
            ok ==> exists|ix: usize| #[trigger] first_with_id(old(self).items(), id, Some(ix))
                && final(self).items() == old(self).items().remove(ix as int),
    {
        if !deleted {
            return false;
        }
        let index = match self.position(id) {
            Some(i) => i,
            None => {
                return false;
            },
        };
        let _ = items_remove(&mut self.list, index);
        true
    }

    /// Renames the first contact numbered `id` to `name` once storage did
    /// (`stored`); whether it did.
    pub fn update(&mut self, id: i64, name: String, stored: bool) -> (ok: bool)
        ensures
            !ok ==> final(self).items() == old(self).items(),
            ok <==> (stored && exists|j: int| 0 <= j < old(self).items().len() && old(self).items()[j].contact_id == id),
            ok ==> exists|ix: usize| #[trigger] first_with_id(old(self).items(), id, Some(ix))
                && final(self).items() == old(self).items().update(ix as int, (ContactsItem { contact_id: id, name })),
    {
        if !stored {
            return false;
        }
        let index = match self.position(id) {
            Some(i) => i,
            None => {
                return false;
            },
        };
        let _ = items_set(&mut self.list, index, ContactsItem { contact_id: id, name });
        true
    }

    /// The number of contacts.
    pub fn row_count(&self) -> (n: usize)
        ensures
            n == self.items().len(),
    {
        items_len(&self.list)
    }

    /// The number of the contact at `index`.
    pub fn contact_id(&self, index: usize) -> (id: i64)
        requires
            index < self.items().len(),
        ensures
            id == self.items()[index as int].contact_id,
    {
        items_get(&self.list, index).unwrap().contact_id
    }

    /// The name of the contact at `index`.
    pub fn name(&self, index: usize) -> (n: &str)
        requires
            index < self.items().len(),
        ensures
            n@ == self.items()[index as int].name@,
    {
        items_get(&self.list, index).unwrap().name.as_str()
    }

    /// Renames the contact at `index`, in the list only.
    pub fn set_name(&mut self, index: usize, v: String) -> (ok: bool)
        requires
            index < old(self).items().len(),
        ensures
            ok,
            final(self).items() == old(self).items().update(
                index as int,
                (ContactsItem { contact_id: old(self).items()[index as int].contact_id, name: v }),
            ),
    {
        let id = items_get(&self.list, index).unwrap().contact_id;
        let _ = items_set(&mut self.list, index, ContactsItem { contact_id: id, name: v });
        true
    }
}

} // verus!
pub mod contacts;
