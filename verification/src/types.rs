//! Identifiers shared by the models: message and conversation ids are 32 random
//! bytes, user ids are short strings.
use vstd::prelude::*;

verus! {

/// The id of a message: 32 random bytes.
pub type MsgId = [u8; 32];

/// The id of a conversation: 32 random bytes.
pub type ConversationId = [u8; 32];

/// The id of a user.
pub type UserId = String;

/// A point in time, in milliseconds since the Unix epoch.
pub type Time = i64;

/// `s` is a text whose characters are `chars`.
pub open spec fn some_text(s: Option<&str>, chars: Seq<char>) -> bool {
    match s {
        Some(x) => x@ == chars,
        None => false,
    }
}

/// `s` shows the optional text `text`: both absent, or equal.
pub open spec fn shows_text(s: Option<&str>, text: Option<String>) -> bool {
    match (s, text) {
        (Some(x), Some(b)) => x@ == b@,
        (None, None) => true,
        _ => false,
    }
}

/// Whether two 32-byte ids are the same.
pub fn ids_equal(a: &[u8; 32], b: &[u8; 32]) -> (same: bool)
    ensures
        same == (*a == *b),
{
    let mut i: usize = 0;
    while i < 32
        invariant
            i <= 32,
            forall|j: int| 0 <= j < i ==> a[j] == b[j],
        decreases 32 - i,
    {
        if a[i] != b[i] {
            proof {
                broadcast use vstd::array::group_array_axioms;
                assert(a[i as int] != b[i as int]);
            }
            return false;
        }
        i = i + 1;
    }
    proof {
        broadcast use vstd::array::group_array_axioms;
        assert(*a =~= *b);
    }
    true
}

/// Whether two user ids are the same.
pub fn users_equal(a: &UserId, b: &UserId) -> (same: bool)
    ensures
        same == (a@ == b@),
{
    a.eq(b)
}

/// The 32-byte id in `bytes`, which must be exactly 32 bytes long.
pub fn id_from_slice(bytes: &[u8]) -> (id: Option<[u8; 32]>)
    ensures
        bytes@.len() == 32 <==> id is Some,
        id matches Some(a) ==> a@ == bytes@,
{
    if bytes.len() != 32 {
        return None;
    }
    let mut a: [u8; 32] = [0u8; 32];
    let mut i: usize = 0;
    while i < 32
        invariant
            i <= 32,
            bytes@.len() == 32,
            forall|j: int| 0 <= j < i ==> a@[j] == bytes@[j],
        decreases 32 - i,
    {
        a[i] = bytes[i];
        i = i + 1;
    }
    proof {
        broadcast use vstd::array::group_array_axioms;
        assert(a@ =~= bytes@);
    }
    Some(a)
}

/// `a` comes before `b` in byte-wise lexicographic order.
pub open spec fn bytes_lt(a: Seq<u8>, b: Seq<u8>) -> bool
    decreases a.len(),
{
    if b.len() == 0 {
        false
    } else if a.len() == 0 {
        true
    } else if a[0] != b[0] {
        a[0] < b[0]
    } else {
        bytes_lt(a.drop_first(), b.drop_first())
    }
}

/// No byte string comes before itself, and of two byte strings at most one
/// comes before the other.
pub proof fn lemma_bytes_lt_asymmetric(a: Seq<u8>, b: Seq<u8>)
    ensures
        !(bytes_lt(a, b) && bytes_lt(b, a)),
    decreases a.len(),
{
    if a.len() > 0 && b.len() > 0 && a[0] == b[0] {
        lemma_bytes_lt_asymmetric(a.drop_first(), b.drop_first());
    }
}

/// Byte-wise lexicographic order is transitive.
pub proof fn lemma_bytes_lt_transitive(a: Seq<u8>, b: Seq<u8>, c: Seq<u8>)
    requires
        bytes_lt(a, b),
        bytes_lt(b, c),
    ensures
        bytes_lt(a, c),
    decreases a.len(),
{
    if a.len() > 0 && a[0] == b[0] && b[0] == c[0] {
        lemma_bytes_lt_transitive(a.drop_first(), b.drop_first(), c.drop_first());
    }
}

/// Whether `a` comes before `b` in the order of strings: byte-wise lexicographic.
pub fn str_less(a: &str, b: &str) -> (less: bool)
    ensures
        less == bytes_lt(vstd::utf8::encode_utf8(a@), vstd::utf8::encode_utf8(b@)),
{
    let x = a.as_bytes();
    let y = b.as_bytes();
    let mut i: usize = 0;
    assert(x@.skip(0) =~= x@);
    assert(y@.skip(0) =~= y@);
    while i < x.len() && i < y.len()
        invariant
            i <= x@.len(),
            i <= y@.len(),
            x@ == vstd::utf8::encode_utf8(a@),
            y@ == vstd::utf8::encode_utf8(b@),
            bytes_lt(x@, y@) == bytes_lt(x@.skip(i as int), y@.skip(i as int)),
        decreases x@.len() - i,
    {
        if x[i] != y[i] {
            proof {
                assert(x@.skip(i as int)[0] == x@[i as int]);
                assert(y@.skip(i as int)[0] == y@[i as int]);
            }
            return x[i] < y[i];
        }
        proof {
            assert(x@.skip(i as int).drop_first() =~= x@.skip(i + 1));
            assert(y@.skip(i as int).drop_first() =~= y@.skip(i + 1));
        }
        i = i + 1;
    }
    i < y.len()
}

/// Whether two strings are the same.
pub fn str_equal(a: &str, b: &str) -> (same: bool)
    ensures
        same == (a@ == b@),
{
    let x = a.to_owned();
    let y = b.to_owned();
    x.eq(&y)
}

} // verus!
