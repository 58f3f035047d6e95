//! The list of users the local user knows, with a filter over it.
use crate::interface::users::{UsersEmitter, UsersList, UsersSignal};
use crate::messages::search::PatternState;
use crate::signal::{after_call, after_calls, lemma_calls_none, lemma_calls_push, raised, ModelCall};
use crate::types::{bytes_lt, ConversationId, UserId};
use vstd::prelude::*;

verus! {

/// Whether a user is active, archived or deleted.
#[derive(Clone, Copy, Debug, PartialEq, Eq)]
pub enum UserStatus {
    Active,
    Archived,
    Deleted,
}

impl UserStatus {
    /// The status with number `code`, if there is one.
    pub fn try_from_code(code: u8) -> (s: Option<UserStatus>)
        ensures
            code == 0 <==> s == Some(UserStatus::Active),
            code == 1 <==> s == Some(UserStatus::Archived),
            code == 2 <==> s == Some(UserStatus::Deleted),
            code > 2 <==> s is None,
    {
        if code == 0 {
            Some(UserStatus::Active)
        } else if code == 1 {
            Some(UserStatus::Archived)
        } else if code == 2 {
            Some(UserStatus::Deleted)
        } else {
            None
        }
    }

    /// The number of the status.
    pub fn code(&self) -> (c: u8)
        ensures
            c == match *self {
                UserStatus::Active => 0u8,
                UserStatus::Archived => 1u8,
                UserStatus::Deleted => 2u8,
            },
    {
        match self {
            UserStatus::Active => 0,
            UserStatus::Archived => 1,
            UserStatus::Deleted => 2,
        }
    }
}

/// What is known of a user.
#[derive(Clone)]
pub struct UserData {
    pub id: UserId,
    pub name: String,
    pub pairwise_conversation: ConversationId,
    pub profile_picture: Option<String>,
    pub color: u32,
    pub status: UserStatus,
}

/// An update for the user list from the network.
pub enum UsersUpdate {
    /// A new user, with what is known of them.
    NewUser(UserData),
    /// The answer to a contact request: who, and whether they accepted.
    ReqResp(UserId, bool),
}

/// A user in the list: the id, and whether the filter lets it through.
pub struct User {
    pub id: UserId,
    pub matched: bool,
}

/// Whether a user passes the filter: always without a filter, else as the
/// pattern engine says (`data_matches`).
pub open spec fn passes(filter: Option<PatternState>, data_matches: bool) -> bool {
    filter is None || data_matches
}

/// Without a filter every user passes; with one, a user passes exactly when
/// the pattern engine says it matches.
pub proof fn the_filter_lets_through_what_matches(filter: Option<PatternState>, data_matches: bool)
    ensures
        filter is None ==> passes(filter, data_matches),
        filter is Some ==> (passes(filter, data_matches) <==> data_matches),
{
}

/// A user with id `id` (whose bytes are `bytes`) and flag `matched` comes
/// before `u` in the order of users: by id bytes, then unmatched first.
pub open spec fn goes_before(id: Seq<char>, bytes: Seq<u8>, matched: bool, u: User) -> bool {
    bytes_lt(bytes, vstd::utf8::encode_utf8(u.id@)) || (id == u.id@ && !matched && u.matched)
}

/// The user `a` comes before the user `b` in the order of users.
pub open spec fn user_before(a: User, b: User) -> bool {
    goes_before(a.id@, vstd::utf8::encode_utf8(a.id@), a.matched, b)
}

/// The users are in the order of users: none comes before one listed earlier.
pub open spec fn users_ordered(s: Seq<User>) -> bool {
    forall|i: int, j: int| 0 <= i < j < s.len() ==> !user_before(#[trigger] s[j], #[trigger] s[i])
}

/// The order of users is transitive.
proof fn lemma_user_before_transitive(a: User, b: User, c: User)
    requires
        user_before(a, b),
        user_before(b, c),
    ensures
        user_before(a, c),
{
    let (ea, eb, ec) = (vstd::utf8::encode_utf8(a.id@), vstd::utf8::encode_utf8(b.id@), vstd::utf8::encode_utf8(c.id@));
    if bytes_lt(ea, eb) && bytes_lt(eb, ec) {
        crate::types::lemma_bytes_lt_transitive(ea, eb, ec);
    }
}

/// No user comes before itself, and of two users at most one comes first.
proof fn lemma_user_before_asymmetric(a: User, b: User)
    ensures
        !(user_before(a, b) && user_before(b, a)),
{
    crate::types::lemma_bytes_lt_asymmetric(vstd::utf8::encode_utf8(a.id@), vstd::utf8::encode_utf8(b.id@));
}

/// Putting `x` in at `pos`, after every user that does not come after it and
/// before the first that does, keeps an ordered list ordered.
proof fn lemma_insert_keeps_order(before: Seq<User>, pos: int, x: User)
    requires
        users_ordered(before),
        0 <= pos <= before.len(),
        forall|j: int| 0 <= j < pos ==> !user_before(x, #[trigger] before[j]),
        pos < before.len() ==> user_before(x, before[pos]),
    ensures
        users_ordered(before.insert(pos, x)),
{
    let after = before.insert(pos, x);
    assert forall|i: int, j: int| 0 <= i < j < after.len() implies !user_before(#[trigger] after[j], #[trigger] after[i]) by {
        if j < pos {
            assert(after[i] == before[i] && after[j] == before[j]);
        } else if j == pos {
            assert(after[i] == before[i]);
        } else if i > pos {
            assert(after[i] == before[i - 1] && after[j] == before[j - 1]);
        } else if i == pos {
            assert(after[j] == before[j - 1]);
            if user_before(before[j - 1], x) {
                lemma_user_before_transitive(before[j - 1], x, before[pos]);
                if j - 1 == pos {
                    lemma_user_before_asymmetric(before[pos], before[pos]);
                } else {
                    assert(!user_before(before[j - 1], before[pos]));
                }
            }
        } else {
            assert(after[i] == before[i] && after[j] == before[j - 1]);
        }
    }
}

/// The calls that tell the view of each of the first `n` rows whose `matched`
/// flag differs between `before` and `after`, in row order.
pub open spec fn redrawn_rows(before: Seq<User>, after: Seq<User>, n: nat) -> Seq<ModelCall>
    decreases n,
{
    if n == 0 {
        Seq::<ModelCall>::empty()
    } else {
        redrawn_rows(before, after, (n - 1) as nat) + if before[n - 1].matched != after[n - 1].matched {
            seq![ModelCall::DataChanged { first: (n - 1) as usize, last: (n - 1) as usize }]
        } else {
            Seq::<ModelCall>::empty()
        }
    }
}

/// Rows past `m` that kept their flag add nothing to the calls, and rows
/// before it count by their flag alone.
proof fn lemma_redrawn_frame(before: Seq<User>, a1: Seq<User>, a2: Seq<User>, n: nat, m: nat)
    requires
        m <= n,
        forall|i: int| 0 <= i < m ==> #[trigger] a1[i].matched == a2[i].matched,
        forall|i: int| m <= i < n ==> #[trigger] a2[i].matched == before[i].matched,
    ensures
        redrawn_rows(before, a1, m) == redrawn_rows(before, a2, n),
    decreases n,
{
    if n > m {
        lemma_redrawn_frame(before, a1, a2, (n - 1) as nat, m);
        assert(a2[n - 1].matched == before[n - 1].matched);
        assert(redrawn_rows(before, a2, n) =~= redrawn_rows(before, a2, (n - 1) as nat));
    } else if n > 0 {
        lemma_redrawn_frame(before, a1, a2, (n - 1) as nat, (m - 1) as nat);
        assert(a1[m - 1].matched == a2[m - 1].matched);
    }
}

/// The cache held every user up to and including `i`.
pub open spec fn cached_through(outcomes: Seq<Option<bool>>, i: int) -> bool {
    forall|j: int| 0 <= j <= i ==> #[trigger] outcomes[j] is Some
}

/// The index of the user with id `id` and flag `matched` in `list`, if any.
pub fn find_user(list: &Vec<User>, id: &UserId, matched: bool) -> (pos: Option<usize>)
    ensures
        pos matches Some(p) ==> p < list@.len() && list@[p as int].id@ == id@ && list@[p as int].matched
            == matched,
        pos is None ==> forall|j: int|
            0 <= j < list@.len() ==> !(list@[j].id@ == id@ && list@[j].matched == matched),
{
    let mut i: usize = 0;
    while i < list.len()
        invariant
            i <= list@.len(),
            forall|j: int| 0 <= j < i ==> !(list@[j].id@ == id@ && list@[j].matched == matched),
        decreases list@.len() - i,
    {
        if list[i].id.eq(id) && list[i].matched == matched {
            return Some(i);
        }
        i = i + 1;
    }
    None
}

/// The users the local user knows, in the order the view shows them.
pub struct Users {
    pub emit: UsersEmitter,
    pub model: UsersList,
    pub filter: Option<PatternState>,
    pub filter_regex: bool,
    pub list: Vec<User>,
}

impl Users {
    /// The list of the users that storage knows (none when reading them failed),
    /// all shown, with an empty normal-mode filter.
    pub fn new(emit: UsersEmitter, model: UsersList, all: Option<Vec<UserData>>) -> (u: Users)
        ensures
            all is None ==> u.list@.len() == 0,
            all matches Some(v) ==> u.list@.len() == v@.len() && forall|i: int|
                0 <= i < v@.len() ==> #[trigger] u.list@[i].id@ == v@[i].id@ && u.list@[i].matched,
            u.filter matches Some(f) && f.raw@.len() == 0 && !f.regex,
            !u.filter_regex,
    {
        let mut list: Vec<User> = Vec::new();
        match all {
            Some(v) => {
                let mut i: usize = 0;
                while i < v.len()
                    invariant
                        i <= v@.len(),
                        list@.len() == i,
                        forall|j: int| 0 <= j < i ==> #[trigger] list@[j].id@ == v@[j].id@ && list@[j].matched,
                    decreases v@.len() - i,
                {
                    list.push(User { id: v[i].id.clone(), matched: true });
                    i = i + 1;
                }
            },
            None => {},
        }
        Users {
            emit,
            model,
            list,
            filter: Some(PatternState { raw: String::new(), regex: false }),
            filter_regex: false,
        }
    }

    /// The number of users.
    pub fn row_count(&self) -> (n: usize)
        ensures
            n == self.list@.len(),
    {
        self.list.len()
    }

    /// The id of the user at `row_index`, empty past the end.
    pub fn user_id(&self, row_index: usize) -> (id: &str)
        ensures
            row_index < self.list@.len() ==> id@ == self.list@[row_index as int].id@,
            row_index >= self.list@.len() ==> id@ == ""@,
    {
        if row_index < self.list.len() {
            self.list[row_index].id.as_str()
        } else {
            ""
        }
    }

    /// Whether the filter lets the user at `row_index` through; past the end, yes.
    pub fn matched(&self, row_index: usize) -> (m: bool)
        ensures
            row_index < self.list@.len() ==> m == self.list@[row_index as int].matched,
            row_index >= self.list@.len() ==> m,
    {
        if row_index < self.list.len() {
            self.list[row_index].matched
        } else {
            true
        }
    }

    /// The filter's text, empty without a filter.
    pub fn filter(&self) -> (f: &str)
        ensures
            self.filter matches Some(p) ==> f@ == p.raw@,
            self.filter is None ==> f@ == ""@,
    {
        match &self.filter {
            Some(p) => p.raw.as_str(),
            None => "",
        }
    }

    /// Whether the filter is a regular expression.
    pub fn filter_regex(&self) -> (r: bool)
        ensures
            r == self.filter_regex,
    {
        self.filter_regex
    }

    /// Adds the user `data` that storage just created, unless the same entry is
    /// listed already, at the place the search gives, telling the view. Whether
    /// it was added; either way the caller hands back its pairwise conversation.
    /// `data_matches` is what the pattern engine says of the user.
    pub fn add(&mut self, data: &UserData, data_matches: bool) -> (added: bool)
        ensures
            final(self).filter == old(self).filter,
            final(self).model.target() == old(self).model.target(),
            !added ==> final(self).list@ == old(self).list@ && final(self).model@ == old(self).model@,
            added ==> exists|pos: int|
                0 <= pos <= old(self).list@.len() && #[trigger] final(self).list@.len() == old(self).list@.len() + 1
                    && final(self).list@[pos].id@ == data.id@ && final(self).list@[pos].matched == passes(
                    old(self).filter,
                    data_matches,
                ) && final(self).list@ == old(self).list@.insert(pos, final(self).list@[pos])
                && (forall|j: int| 0 <= j < pos ==> !goes_before(
                    data.id@,
                    vstd::utf8::encode_utf8(data.id@),
                    passes(old(self).filter, data_matches),
                    #[trigger] old(self).list@[j],
                )) && (pos < old(self).list@.len() ==> goes_before(
                    data.id@,
                    vstd::utf8::encode_utf8(data.id@),
                    passes(old(self).filter, data_matches),
                    old(self).list@[pos],
                ))
                && final(self).model@ == after_call(
                    after_call(old(self).model@, old(self).model.target(), ModelCall::BeginInsertRows { first: pos as usize, last: pos as usize }),
                    old(self).model.target(),
                    ModelCall::EndInsertRows,
                ),
            added <==> forall|j: int|
                0 <= j < old(self).list@.len() ==> !(old(self).list@[j].id@ == data.id@
                    && old(self).list@[j].matched == passes(old(self).filter, data_matches)),
            users_ordered(old(self).list@) ==> users_ordered(final(self).list@),
    {
        let matched = match &self.filter {
            Some(_) => data_matches,
            None => true,
        };
        if find_user(&self.list, &data.id, matched).is_some() {
            return false;
        }
        let pos = self.insert_position(&data.id, matched);
        let user = User { id: data.id.clone(), matched };
        self.model.begin_insert_rows(pos, pos);
        self.list.insert(pos, user);
        self.model.end_insert_rows();
        assert(self.list@[pos as int].id@ == data.id@);
        proof {
            if users_ordered(old(self).list@) {
                lemma_insert_keeps_order(old(self).list@, pos as int, self.list@[pos as int]);
            }
        }
        true
    }

    /// Where a user with id `id` and flag `matched` goes: before the first
    /// listed user whose id bytes are greater.
    pub fn insert_position(&self, id: &UserId, matched: bool) -> (pos: usize)
        ensures
            pos <= self.list@.len(),
            forall|j: int| 0 <= j < pos ==> !goes_before(id@, vstd::utf8::encode_utf8(id@), matched, #[trigger] self.list@[j]),
            pos < self.list@.len() ==> goes_before(id@, vstd::utf8::encode_utf8(id@), matched, self.list@[pos as int]),
    {
        let mut i: usize = 0;
        while i < self.list.len()
            invariant
                i <= self.list@.len(),
                forall|j: int| 0 <= j < i ==> !goes_before(id@, vstd::utf8::encode_utf8(id@), matched, #[trigger] self.list@[j]),
            decreases self.list@.len() - i,
        {
            if crate::types::str_less(id.as_str(), self.list[i].id.as_str())
                || (crate::types::str_equal(id.as_str(), self.list[i].id.as_str()) && !matched
                && self.list[i].matched) {
                return i;
            }
            i = i + 1;
        }
        i
    }

    /// Changes the status of the user at `row_index` to the one numbered
    /// `status`; a deleted user leaves the list, telling the view. `false` when
    /// the number is no status, there is no such row, or the user is not cached
    /// (`cached`); then nothing changes.
    pub fn set_status(&mut self, row_index: usize, status: u8, cached: bool) -> (ok: bool)
        ensures
            ok <==> (status <= 2 && row_index < old(self).list@.len() && cached),
            ok && status == 2 ==> final(self).list@ == old(self).list@.remove(row_index as int),
            !(ok && status == 2) ==> final(self).list@ == old(self).list@,
            final(self).filter == old(self).filter,
            final(self).model.target() == old(self).model.target(),
            ok && status == 2 ==> final(self).model@ == after_call(
                after_call(
                    old(self).model@,
                    old(self).model.target(),
                    ModelCall::BeginRemoveRows { first: row_index, last: row_index },
                ),
                old(self).model.target(),
                ModelCall::EndRemoveRows,
            ),
            !(ok && status == 2) ==> final(self).model@ == old(self).model@,
            users_ordered(old(self).list@) ==> users_ordered(final(self).list@),
    {
        let s = match UserStatus::try_from_code(status) {
            Some(s) => s,
            None => {
                return false;
            },
        };
        if row_index >= self.list.len() || !cached {
            return false;
        }
        match s {
            UserStatus::Deleted => {
                self.model.begin_remove_rows(row_index, row_index);
                self.list.remove(row_index);
                self.model.end_remove_rows();
                proof {
                    let b = old(self).list@;
                    let a = self.list@;
                    if users_ordered(b) {
                        assert forall|i: int, j: int| 0 <= i < j < a.len() implies !user_before(#[trigger] a[j], #[trigger] a[i]) by {
                            let bi = if i < row_index { i } else { i + 1 };
                            let bj = if j < row_index { j } else { j + 1 };
                            assert(a[i] == b[bi] && a[j] == b[bj]);
                        }
                    }
                }
            },
            _ => {},
        }
        true
    }

    /// Lets every user through again, telling the view of each that changes, and
    /// resets the filter to an empty pattern in the current mode.
    pub fn clear_filter(&mut self)
        ensures
            final(self).list@.len() == old(self).list@.len(),
            forall|i: int|
                #![trigger final(self).list@[i]]
                0 <= i < old(self).list@.len() ==> final(self).list@[i].matched
                    && final(self).list@[i].id == old(self).list@[i].id,
            final(self).filter matches Some(f) && f.raw@.len() == 0 && f.regex == old(self).filter_regex,
            final(self).filter_regex == old(self).filter_regex,
            final(self).model.target() == old(self).model.target(),
            final(self).model@ == after_calls(
                old(self).model@,
                old(self).model.target(),
                redrawn_rows(old(self).list@, final(self).list@, old(self).list@.len()),
            ),
    {
        let n = self.list.len();
        let mut ix: usize = 0;
        proof {
            lemma_calls_none(self.model@, self.model.target());
        }
        while ix < n
            invariant
                n == self.list@.len(),
                n == old(self).list@.len(),
                ix <= n,
                forall|i: int|
                    #![trigger self.list@[i]]
                    0 <= i < ix ==> self.list@[i].matched && self.list@[i].id == old(self).list@[i].id,
                forall|i: int| ix <= i < n ==> #[trigger] self.list@[i] == old(self).list@[i],
                self.filter_regex == old(self).filter_regex,
                self.model.target() == old(self).model.target(),
                self.model@ == after_calls(
                    old(self).model@,
                    old(self).model.target(),
                    redrawn_rows(old(self).list@, self.list@, ix as nat),
                ),
            decreases n - ix,
        {
            let ghost prev = self.list@;
            let ghost made = redrawn_rows(old(self).list@, prev, ix as nat);
            if !self.list[ix].matched {
                let id = self.list[ix].id.clone();
                self.list.set(ix, User { id, matched: true });
                proof {
                    lemma_calls_push(old(self).model@, old(self).model.target(), made, ModelCall::DataChanged { first: ix, last: ix });
                }
                self.model.data_changed(ix, ix);
            }
            proof {
                lemma_redrawn_frame(old(self).list@, prev, self.list@, ix as nat, ix as nat);
                assert(redrawn_rows(old(self).list@, self.list@, (ix + 1) as nat) =~= made + if old(self).list@[ix as int].matched
                    != self.list@[ix as int].matched {
                    seq![ModelCall::DataChanged { first: ix, last: ix }]
                } else {
                    Seq::<ModelCall>::empty()
                });
                if old(self).list@[ix as int].matched == self.list@[ix as int].matched {
                    assert(made + Seq::<ModelCall>::empty() =~= made);
                } else {
                    assert(made + seq![ModelCall::DataChanged { first: ix, last: ix }] =~= made.push(ModelCall::DataChanged { first: ix, last: ix }));
                }
            }
            ix = ix + 1;
        }
        self.filter = Some(PatternState { raw: String::new(), regex: self.filter_regex });
        self.emit.filter_changed();
    }

    /// Runs the filter over the users: `outcomes[i]` is what the pattern engine
    /// says of user `i`, or `None` when the user's data is not cached, which
    /// stops the run there. Without a filter every user passes. The view hears of
    /// each change.
    pub fn inner_filter(&mut self, outcomes: &Vec<Option<bool>>)
        requires
            outcomes@.len() == old(self).list@.len(),
        ensures
            final(self).list@.len() == old(self).list@.len(),
            final(self).filter == old(self).filter,
            final(self).filter_regex == old(self).filter_regex,
            final(self).emit@ == old(self).emit@,
            forall|i: int|
                0 <= i < old(self).list@.len() ==> #[trigger] final(self).list@[i].id == old(self).list@[i].id,
            forall|i: int|
                0 <= i < old(self).list@.len() ==> (if cached_through(outcomes@, i) {
                    #[trigger] final(self).list@[i].matched == passes(old(self).filter, outcomes@[i].unwrap())
                } else {
                    final(self).list@[i].matched == old(self).list@[i].matched
                }),
            final(self).model.target() == old(self).model.target(),
            final(self).model@ == after_calls(
                old(self).model@,
                old(self).model.target(),
                redrawn_rows(old(self).list@, final(self).list@, old(self).list@.len()),
            ),
    {
        let n = self.list.len();
        let mut ix: usize = 0;
        proof {
            lemma_calls_none(self.model@, self.model.target());
        }
        while ix < n
            invariant
                n == self.list@.len(),
                n == old(self).list@.len(),
                outcomes@.len() == n,
                ix <= n,
                self.filter == old(self).filter,
                self.filter_regex == old(self).filter_regex,
                self.emit@ == old(self).emit@,
                forall|j: int| 0 <= j < ix ==> #[trigger] outcomes@[j] is Some,
                forall|i: int| 0 <= i < ix ==> #[trigger] cached_through(outcomes@, i),
                forall|i: int| 0 <= i < n ==> #[trigger] self.list@[i].id == old(self).list@[i].id,
                forall|i: int|
                    0 <= i < ix ==> #[trigger] self.list@[i].matched == passes(
                        old(self).filter,
                        outcomes@[i].unwrap(),
                    ),
                forall|i: int| ix <= i < n ==> #[trigger] self.list@[i].matched == old(self).list@[i].matched,
                self.model.target() == old(self).model.target(),
                self.model@ == after_calls(
                    old(self).model@,
                    old(self).model.target(),
                    redrawn_rows(old(self).list@, self.list@, ix as nat),
                ),
            decreases n - ix,
        {
            let outcome = match outcomes[ix] {
                Some(o) => o,
                None => {
                    proof {
                        assert forall|i: int| ix <= i < n implies !#[trigger] cached_through(outcomes@, i) by {
                            assert(outcomes@[ix as int] is None);
                        }
                        lemma_redrawn_frame(old(self).list@, self.list@, self.list@, n as nat, ix as nat);
                    }
                    return;
                },
            };
            let ghost prev = self.list@;
            let ghost made = redrawn_rows(old(self).list@, prev, ix as nat);
            let old_matched = self.list[ix].matched;
            let matched = match &self.filter {
                Some(_) => outcome,
                None => true,
            };
            let id = self.list[ix].id.clone();
            self.list.set(ix, User { id, matched });
            if matched != old_matched {
                proof {
                    lemma_calls_push(old(self).model@, old(self).model.target(), made, ModelCall::DataChanged { first: ix, last: ix });
                }
                self.model.data_changed(ix, ix);
            }
            proof {
                lemma_redrawn_frame(old(self).list@, prev, self.list@, ix as nat, ix as nat);
                assert(redrawn_rows(old(self).list@, self.list@, (ix + 1) as nat) =~= made + if old(self).list@[ix as int].matched
                    != self.list@[ix as int].matched {
                    seq![ModelCall::DataChanged { first: ix, last: ix }]
                } else {
                    Seq::<ModelCall>::empty()
                });
                if old(self).list@[ix as int].matched == self.list@[ix as int].matched {
                    assert(made + Seq::<ModelCall>::empty() =~= made);
                } else {
                    assert(made + seq![ModelCall::DataChanged { first: ix, last: ix }] =~= made.push(ModelCall::DataChanged { first: ix, last: ix }));
                }
            }
            ix = ix + 1;
        }
    }

    /// Sets the filter text. An empty text clears the filter. Otherwise an
    /// existing filter takes the text when it compiles (`compiles`); when it does
    /// not, the filter is dropped and nothing else happens. Without a filter a
    /// normal-mode one is made from the text (none when it does not compile).
    /// The view hears of the change and the filter reruns, `outcomes` being what
    /// the pattern engine says of each user under the new filter.
    pub fn set_filter(&mut self, pattern: String, compiles: bool, outcomes: &Vec<Option<bool>>)
        requires
            outcomes@.len() == old(self).list@.len(),
        ensures
            final(self).list@.len() == old(self).list@.len(),
            final(self).filter_regex == old(self).filter_regex,
            pattern@.len() == 0 ==> (final(self).filter matches Some(f) && f.raw@.len() == 0),
            pattern@.len() > 0 ==> match old(self).filter {
                Some(f) => if compiles {
                    final(self).filter matches Some(g) && g.raw@ == pattern@ && g.regex == f.regex
                } else {
                    final(self).filter is None && final(self).list@ == old(self).list@
                },
                None => if compiles {
                    final(self).filter matches Some(g) && g.raw@ == pattern@ && !g.regex
                } else {
                    final(self).filter is None
                },
            },
    {
        if pattern.as_str().is_empty() {
            self.clear_filter();
            return;
        }
        let taken = self.filter.take();
        self.filter = match taken {
            Some(mut pat) => {
                if !compiles {
                    return;
                }
                pat.raw = pattern;
                Some(pat)
            },
            None => if compiles {
                Some(PatternState { raw: pattern, regex: false })
            } else {
                None
            },
        };
        self.emit.filter_changed();
        self.inner_filter(outcomes);
    }

    /// Switches the filter between regular-expression and normal mode. When the
    /// text does not compile in the new mode (`compiles`) the filter is dropped
    /// and nothing else happens; otherwise the mode flag changes, the view hears
    /// of it and the filter reruns, `outcomes` being what the pattern engine says
    /// of each user.
    pub fn set_filter_regex(&mut self, use_regex: bool, compiles: bool, outcomes: &Vec<Option<bool>>)
        requires
            outcomes@.len() == old(self).list@.len(),
        ensures
            final(self).list@.len() == old(self).list@.len(),
            old(self).filter is Some && !compiles ==> final(self).filter is None && final(self).filter_regex
                == old(self).filter_regex && final(self).list@ == old(self).list@,
            old(self).filter is None || compiles ==> final(self).filter_regex == use_regex,
            old(self).filter is None ==> final(self).filter is None,
            old(self).filter is Some && compiles ==> (final(self).filter matches Some(g) && g.regex
                == use_regex && g.raw == old(self).filter.unwrap().raw),
            old(self).filter is None || compiles ==> raised(old(self).emit@, final(self).emit@, UsersSignal::FilterRegexChanged),
            old(self).filter is Some && !compiles ==> final(self).emit@ == old(self).emit@,
    {
        let taken = self.filter.take();
        self.filter = match taken {
            Some(mut f) => {
                if !compiles {
                    return;
                }
                f.regex = use_regex;
                Some(f)
            },
            None => None,
        };
        self.filter_regex = use_regex;
        self.emit.filter_regex_changed();
        self.inner_filter(outcomes);
    }

    /// Toggles the filter mode and returns the new mode. The flag always takes
    /// the new mode and the view hears of it; a filter whose text does not compile
    /// in the new mode (`compiles`) is dropped first, as `set_filter_regex` drops
    /// it. `outcomes` is what the pattern engine says of each user.
    pub fn toggle_filter_regex(&mut self, compiles: bool, outcomes: &Vec<Option<bool>>) -> (toggled: bool)
        requires
            outcomes@.len() == old(self).list@.len(),
        ensures
            toggled == !old(self).filter_regex,
            final(self).filter_regex == toggled,
            final(self).list@.len() == old(self).list@.len(),
            old(self).filter is None || !compiles ==> final(self).filter is None,
            old(self).filter is Some && compiles ==> (final(self).filter matches Some(g) && g.regex
                == toggled && g.raw == old(self).filter.unwrap().raw),
            raised(old(self).emit@, final(self).emit@, UsersSignal::FilterRegexChanged),
    {
        let toggled = !self.filter_regex;
        self.set_filter_regex(toggled, compiles, outcomes);
        if self.filter_regex != toggled {
            self.set_filter_regex(toggled, compiles, outcomes);
        }
        toggled
    }

    /// Takes in a new user that the network reported: unless the same entry is
    /// listed already it is appended (the view is told of the row where the
    /// order would put it). Whether it was taken in. `data_matches` is what the
    /// pattern engine says of the user.
    pub fn new_user(&mut self, data: &UserData, data_matches: bool) -> (taken: bool)
        ensures
            final(self).filter == old(self).filter,
            final(self).model.target() == old(self).model.target(),
            !taken ==> final(self).list@ == old(self).list@ && final(self).model@ == old(self).model@,
            taken ==> exists|pos: usize|
                pos <= old(self).list@.len()
                    && (forall|j: int| 0 <= j < pos ==> !goes_before(data.id@, vstd::utf8::encode_utf8(data.id@),
                        passes(old(self).filter, data_matches), #[trigger] old(self).list@[j]))
                    && (pos < old(self).list@.len() ==> goes_before(data.id@, vstd::utf8::encode_utf8(data.id@),
                        passes(old(self).filter, data_matches), old(self).list@[pos as int]))
                    && #[trigger] after_call(
                    after_call(old(self).model@, old(self).model.target(), ModelCall::BeginInsertRows { first: pos, last: pos }),
                    old(self).model.target(),
                    ModelCall::EndInsertRows,
                ) == final(self).model@,
            !taken ==> final(self).list@ == old(self).list@,
            taken ==> final(self).list@.len() == old(self).list@.len() + 1 && final(self).list@.drop_last()
                == old(self).list@ && final(self).list@.last().id@ == data.id@
                && final(self).list@.last().matched == passes(old(self).filter, data_matches),
            taken <==> forall|j: int|
                0 <= j < old(self).list@.len() ==> !(old(self).list@[j].id@ == data.id@
                    && old(self).list@[j].matched == passes(old(self).filter, data_matches)),
    {
        let matched = match &self.filter {
            Some(_) => data_matches,
            None => true,
        };
        if find_user(&self.list, &data.id, matched).is_some() {
            return false;
        }
        let pos = self.insert_position(&data.id, matched);
        self.model.begin_insert_rows(pos, pos);
        self.list.push(User { id: data.id.clone(), matched });
        self.model.end_insert_rows();
        assert(self.list@.drop_last() =~= old(self).list@);
        true
    }

    /// Takes in one update from the network: a new user is taken in as
    /// `new_user` does (`data_matches` being what the pattern engine says of
    /// it); the answer to a contact request changes nothing here. Whether a user
    /// was taken in.
    pub fn fetch_update(&mut self, update: &UsersUpdate, data_matches: bool) -> (taken: bool)
        ensures
            final(self).filter == old(self).filter,
            match update {
                UsersUpdate::NewUser(data) => {
                    &&& !taken ==> final(self).list@ == old(self).list@
                    &&& taken ==> final(self).list@.drop_last() == old(self).list@
                        && final(self).list@.last().id@ == data.id@
                        && final(self).list@.last().matched == passes(old(self).filter, data_matches)
                    &&& taken <==> forall|j: int|
                        0 <= j < old(self).list@.len() ==> !(old(self).list@[j].id@ == data.id@
                            && old(self).list@[j].matched == passes(old(self).filter, data_matches))
                },
                UsersUpdate::ReqResp(_, _) => !taken && final(self).list@ == old(self).list@
                    && final(self).model@ == old(self).model@,
            },
    {
        match update {
            UsersUpdate::NewUser(data) => self.new_user(data, data_matches),
            UsersUpdate::ReqResp(_, _) => false,
        }
    }

    /// The cache entry of the user at `row_index` with the name `name`, to be
    /// stored back (storage is told as well); `None`, for failure, past the end
    /// or when nothing is cached (`cached`).
    pub fn set_name(&self, row_index: usize, cached: Option<UserData>, name: String) -> (updated: Option<UserData>)
        ensures
            updated is Some <==> (row_index < self.list@.len() && cached is Some),
            updated is Some ==> updated == Some((UserData { name, ..cached.unwrap() })),
    {
        if row_index >= self.list.len() {
            return None;
        }
        match cached {
            Some(mut d) => {
                d.name = name;
                Some(d)
            },
            None => None,
        }
    }

    /// The cache entry of the user at `row_index` with the profile picture
    /// that storage kept (`stored`, `None` when storing failed); `None`, for
    /// failure, past the end, when nothing is cached or storage failed.
    pub fn set_profile_picture(&self, row_index: usize, cached: Option<UserData>, stored: Option<Option<String>>) -> (updated: Option<UserData>)
        ensures
            updated is Some <==> (row_index < self.list@.len() && cached is Some && stored is Some),
            updated is Some ==> updated == Some((UserData { profile_picture: stored.unwrap(), ..cached.unwrap() })),
    {
        if row_index >= self.list.len() {
            return None;
        }
        match (cached, stored) {
            (Some(mut d), Some(path)) => {
                d.profile_picture = path;
                Some(d)
            },
            _ => None,
        }
    }

    /// The cache entry of the user at `row_index` with the color `color`, to
    /// be stored back (storage is told as well); `None`, for failure, past the
    /// end or when nothing is cached.
    pub fn set_color(&self, row_index: usize, cached: Option<UserData>, color: u32) -> (updated: Option<UserData>)
        ensures
            updated is Some <==> (row_index < self.list@.len() && cached is Some),
            updated is Some ==> updated == Some((UserData { color, ..cached.unwrap() })),
    {
        if row_index >= self.list.len() {
            return None;
        }
        match cached {
            Some(mut d) => {
                d.color = color;
                Some(d)
            },
            None => None,
        }
    }

    /// The name of the user at `row_index`, `data` being what the cache holds of
    /// that user: empty past the end, the id when nothing is cached.
    pub fn name(&self, row_index: usize, data: Option<&UserData>) -> (name: String)
        ensures
            row_index >= self.list@.len() ==> name@.len() == 0,
            row_index < self.list@.len() && data is None ==> name@ == self.list@[row_index as int].id@,
            row_index < self.list@.len() && data is Some ==> name@ == data.unwrap().name@,
    {
        if row_index >= self.list.len() {
            return String::new();
        }
        match data {
            Some(d) => d.name.clone(),
            None => self.list[row_index].id.clone(),
        }
    }
}

/// The color of a user as the view shows it: 0 when nothing is cached.
pub fn color_of(data: Option<&UserData>) -> (c: u32)
    ensures
        c == match data {
            Some(d) => d.color,
            None => 0,
        },
{
    match data {
        Some(d) => d.color,
        None => 0,
    }
}

/// The status number of a user as the view shows it: 0 when nothing is cached.
pub fn status_of(data: Option<&UserData>) -> (s: u8)
    ensures
        s == match data {
            Some(d) => match d.status {
                UserStatus::Active => 0u8,
                UserStatus::Archived => 1u8,
                UserStatus::Deleted => 2u8,
            },
            None => 0,
        },
{
    match data {
        Some(d) => d.status.code(),
        None => 0,
    }
}

} // verus!
