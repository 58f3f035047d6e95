//! The two collections behind the message container: an RRB vector of message
//! keys from the `im` crate, and a std hash map from message id to data. Verus
//! reads neither, so each operation the container uses is a trusted wrapper.
use super::types::{Message, MsgData};
use crate::types::{MsgId, Time};
use std::collections::HashMap;
use vstd::prelude::*;

verus! {

#[verifier::external_type_specification]
#[verifier::external_body]
#[verifier::reject_recursive_types(A)]
pub struct ExImVector<A>(im::Vector<A>);

/// The message keys that an `im` vector holds, in order.
pub uninterp spec fn key_seq(v: im::Vector<Message>) -> Seq<Message>;

/// Whether the keys are in non-decreasing order of insertion time.
pub open spec fn sorted_by_time(s: Seq<Message>) -> bool {
    forall|i: int, j: int| 0 <= i <= j < s.len() ==> s[i].insertion_time <= s[j].insertion_time
}

/// `i` is the last index of a key with insertion time `time`.
pub open spec fn found_at(s: Seq<Message>, i: usize, time: Time) -> bool {
    &&& i < s.len()
    &&& s[i as int].insertion_time == time
    &&& forall|j: int| i < j < s.len() ==> s[j].insertion_time > time
}

/// No key has insertion time `time`, and `i` is where one would go: every key
/// before it is earlier, every key from it on is later.
pub open spec fn belongs_at(s: Seq<Message>, i: usize, time: Time) -> bool {
    &&& i <= s.len()
    &&& forall|j: int| 0 <= j < i ==> s[j].insertion_time < time
    &&& forall|j: int| i <= j < s.len() ==> s[j].insertion_time > time
}

/// `im::Vector::new`: an empty vector.
#[verifier::external_body]
pub fn keys_new() -> (v: im::Vector<Message>)
    ensures
        key_seq(v) == Seq::<Message>::empty(),
{
    im::Vector::new()
}

/// `im::Vector::len`: the number of elements.
#[verifier::external_body]
pub fn keys_len(v: &im::Vector<Message>) -> (n: usize)
    ensures
        n == key_seq(*v).len(),
{
    v.len()
}

/// `im::Vector::get`: the element at `index`, `None` past the end.
#[verifier::external_body]
pub fn keys_get(v: &im::Vector<Message>, index: usize) -> (m: Option<&Message>)
    ensures
        index < key_seq(*v).len() ==> m == Some(&key_seq(*v)[index as int]),
        index >= key_seq(*v).len() ==> m is None,
{
    v.get(index)
}

/// `im::Vector::last`: the last element, `None` when empty.
#[verifier::external_body]
pub fn keys_last(v: &im::Vector<Message>) -> (m: Option<&Message>)
    ensures
        key_seq(*v).len() > 0 ==> m == Some(&key_seq(*v).last()),
        key_seq(*v).len() == 0 ==> m is None,
{
    v.last()
}

/// `im::Vector::insert`: puts `m` at `index`, shifting the rest right; it
/// panics past the end, which the `requires` rules out.
#[verifier::external_body]
pub fn keys_insert(v: &mut im::Vector<Message>, index: usize, m: Message)
    requires
        index <= key_seq(*old(v)).len(),
    ensures
        key_seq(*final(v)) == key_seq(*old(v)).insert(index as int, m),
{
    v.insert(index, m)
}

/// `im::Vector::remove`: takes out the element at `index`; it panics past the
/// end, which the `requires` rules out.
#[verifier::external_body]
pub fn keys_remove(v: &mut im::Vector<Message>, index: usize) -> (m: Message)
    requires
        index < key_seq(*old(v)).len(),
    ensures
        m == key_seq(*old(v))[index as int],
        key_seq(*final(v)) == key_seq(*old(v)).remove(index as int),
{
    v.remove(index)
}

/// How the key `m` compares with insertion time `time`, the order by which the
/// container is sorted.
pub fn time_order(m: &Message, time: Time) -> (o: std::cmp::Ordering)
    ensures
        o == std::cmp::Ordering::Less <==> m.insertion_time < time,
        o == std::cmp::Ordering::Equal <==> m.insertion_time == time,
        o == std::cmp::Ordering::Greater <==> m.insertion_time > time,
{
    if m.insertion_time < time {
        std::cmp::Ordering::Less
    } else if m.insertion_time == time {
        std::cmp::Ordering::Equal
    } else {
        std::cmp::Ordering::Greater
    }
}

/// `im::Vector::binary_search_by`, comparing each key's insertion time with
/// `time`. On a vector sorted by time its loop ends at the last key whose time
/// is at most `time`: `Ok` of that index when the time is equal, otherwise `Err`
/// of the index where a key with that time belongs.
#[verifier::external_body]
pub fn keys_search_time(v: &im::Vector<Message>, time: Time) -> (r: Result<usize, usize>)
    requires
        sorted_by_time(key_seq(*v)),
    ensures
        r matches Ok(i) ==> found_at(key_seq(*v), i, time),
        r matches Err(i) ==> belongs_at(key_seq(*v), i, time),
{
    v.binary_search_by(|m| time_order(m, time))
}

/// The map from message id to message data.
pub type DataMap = HashMap<MsgId, MsgData>;

/// The empty map from message ids.
pub open spec fn no_data<V>() -> Map<MsgId, V> {
    Map::empty()
}

/// `HashMap::new`: an empty map from message ids.
#[verifier::external_body]
pub fn data_new<V>() -> (m: HashMap<MsgId, V>)
    ensures
        m@ == no_data::<V>(),
{
    HashMap::new()
}

/// `HashMap::get`: the data stored under `id`, if any. Keys are byte arrays,
/// whose `Hash` and `Eq` agree, so the map behaves as a map.
#[verifier::external_body]
pub fn data_get<'a, V>(m: &'a HashMap<MsgId, V>, id: &MsgId) -> (d: Option<&'a V>)
    ensures
        m@.contains_key(*id) ==> d == Some(&m@[*id]),
        !m@.contains_key(*id) ==> d is None,
{
    m.get(id)
}

/// `HashMap::insert`: stores `data` under `id`, replacing what was there.
#[verifier::external_body]
pub fn data_insert<V>(m: &mut HashMap<MsgId, V>, id: MsgId, data: V)
    ensures
        final(m)@ == old(m)@.insert(id, data),
{
    m.insert(id, data);
}

/// `HashMap::remove`: takes out what is stored under `id`.
#[verifier::external_body]
pub fn data_remove<V>(m: &mut HashMap<MsgId, V>, id: &MsgId) -> (d: Option<V>)
    ensures
        final(m)@ == old(m)@.remove(*id),
        old(m)@.contains_key(*id) ==> d == Some(old(m)@[*id]),
        !old(m)@.contains_key(*id) ==> d is None,
{
    m.remove(id)
}

} // verus!
