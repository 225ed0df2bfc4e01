//! The wish table under the ownership policy: a wish can be seen, changed
//! or deleted only by the identity that created it or by an Admin, and a
//! wish that a caller may not see is indistinguishable from an absent one.
use vstd::prelude::*;
use vstd::string::{StrSliceExecFns, StringExecFns};
use crate::lifecycle::{progress_wish_status, spec_progress};
use crate::model::{RecordId, User, Wish, WishStatus, WishWithUsername};

verus! {

/// The name of the table that holds wishes.
pub open spec fn wish_table() -> Seq<char> {
    seq!['w', 'i', 's', 'h']
}

/// Whether `caller` may see and change `w`: it created `w`, or it is an
/// Admin.
pub open spec fn may_access(caller: User, w: Wish) -> bool {
    ||| (w.created_by matches Some(o) && o@ == caller.id@)
    ||| caller.is_admin()
}

/// Whether some row has key `k`.
pub open spec fn has_key(rows: Seq<Wish>, k: Seq<char>) -> bool {
    exists|i: int| 0 <= i < rows.len() && #[trigger] rows[i].id.key@ == k
}

/// The index of the row with key `k`, where there is one.
pub open spec fn position(rows: Seq<Wish>, k: Seq<char>) -> int {
    choose|i: int| 0 <= i < rows.len() && #[trigger] rows[i].id.key@ == k
}

/// The row with key `k`, whoever may see it.
pub open spec fn lookup(rows: Seq<Wish>, k: Seq<char>) -> Option<Wish> {
    if has_key(rows, k) {
        Some(rows[position(rows, k)])
    } else {
        None
    }
}

/// What `caller` reads at key `k`: the row, if it exists and `caller` may
/// see it; `None` otherwise, with no difference between the two causes.
pub open spec fn spec_read(rows: Seq<Wish>, caller: User, k: Seq<char>) -> Option<Wish> {
    match lookup(rows, k) {
        Some(w) => if may_access(caller, w) {
            Some(w)
        } else {
            None
        },
        None => None,
    }
}

/// The rows that `caller` may see, in table order.
pub open spec fn visible_rows(rows: Seq<Wish>, caller: User) -> Seq<Wish> {
    rows.filter(|w: Wish| may_access(caller, w))
}

/// The decimal digits, in order.
pub open spec fn digits() -> Seq<char> {
    seq!['0', '1', '2', '3', '4', '5', '6', '7', '8', '9']
}

/// The decimal text of `n`, with no leading zeros.
pub open spec fn decimal(n: nat) -> Seq<char>
    decreases n,
{
    if n < 10 {
        seq![digits()[n as int]]
    } else {
        decimal(n / 10).push(digits()[(n % 10) as int])
    }
}

/// The decimal text of `n`.
pub fn decimal_text(n: u64) -> (r: String)
    ensures
        r@ == decimal(n as nat),
    decreases n,
{
    let table = "0123456789";
    proof {
        reveal_strlit("0123456789");
        assert(table@ =~= digits());
    }
    let d = (n % 10) as usize;
    let last = table.substring_char(d, d + 1);
    assert(last@ =~= seq![digits()[d as int]]);
    if n < 10 {
        last.to_owned()
    } else {
        let r = decimal_text(n / 10).concat(last);
        assert(r@ =~= decimal(n as nat));
        r
    }
}

/// No two rows share a key.
pub open spec fn keys_unique(rows: Seq<Wish>) -> bool {
    forall|i: int, j: int|
        0 <= i < rows.len() && 0 <= j < rows.len() && i != j ==> #[trigger] rows[i].id.key@
            != #[trigger] rows[j].id.key@
}

/// The rows after `caller` asks for progress on the wish at key `k`.
pub open spec fn progressed_rows(rows: Seq<Wish>, caller: User, k: Seq<char>) -> Seq<Wish> {
    match spec_progress(spec_read(rows, caller, k)) {
        Some(u) => rows.update(position(rows, k), u),
        None => rows,
    }
}

/// Whether `caller` may see the identity record `u`: its own, or any as an
/// Admin.
pub open spec fn may_see_user(caller: User, u: User) -> bool {
    u.id@ == caller.id@ || caller.is_admin()
}

/// The name of the first identity in `users` with id `o`, as `caller` may
/// see it.
pub open spec fn owner_name(users: Seq<User>, caller: User, o: Option<RecordId>) -> Option<String>
    decreases users.len(),
{
    match o {
        None => None,
        Some(id) => if users.len() == 0 {
            None
        } else if users[0].id@ == id@ {
            if may_see_user(caller, users[0]) {
                Some(users[0].name)
            } else {
                None
            }
        } else {
            owner_name(users.drop_first(), caller, o)
        },
    }
}

/// A wish with its creator's name attached.
pub open spec fn with_username(w: Wish, name: Option<String>) -> WishWithUsername {
    WishWithUsername {
        id: w.id,
        content: w.content,
        status: w.status,
        created_by: w.created_by,
        username: name,
    }
}

fn find_owner_name(users: &Vec<User>, caller: &User, o: &Option<RecordId>) -> (r: Option<String>)
    ensures
        r == owner_name(users@, *caller, *o),
{
    let id = match o {
        None => {
            return None;
        },
        Some(id) => id,
    };
    let mut i: usize = 0;
    assert(users@.subrange(0, users@.len() as int) =~= users@);
    while i < users.len()
        invariant
            i <= users@.len(),
            *o == Some(*id),
            owner_name(users@, *caller, *o) == owner_name(
                users@.subrange(i as int, users@.len() as int),
                *caller,
                *o,
            ),
        decreases users@.len() - i,
    {
        proof {
            let rest = users@.subrange(i as int, users@.len() as int);
            assert(rest.drop_first() =~= users@.subrange(i + 1, users@.len() as int));
            assert(rest[0] == users@[i as int]);
        }
        if users[i].id.same(id) {
            let u = &users[i];
            if u.id.same(&caller.id) || caller.has_admin_role() {
                return Some(u.name.clone());
            }
            return None;
        }
        i = i + 1;
    }
    None
}

/// Why a store operation failed.
#[derive(PartialEq, Eq, Structural, Clone, Copy, Debug)]
pub enum StoreError {
    /// A record with the requested id already exists.
    Conflict,
    /// Every number the table could assign as a key has been used.
    KeysExhausted,
}

/// Whether the access check of a caller admits a wish.
pub fn can_access(caller: &User, w: &Wish) -> (r: bool)
    ensures
        r == may_access(*caller, *w),
{
    let owns = match &w.created_by {
        Some(o) => o.same(&caller.id),
        None => false,
    };
    owns || caller.has_admin_role()
}

/// The wishes of the service, in order of creation.
pub struct WishTable {
    pub rows: Vec<Wish>,
    /// The number from which the next assigned key is formed.
    pub next_number: u64,
}

impl WishTable {
    /// Keys are unique and every row lives in the wish table.
    pub open spec fn wf(&self) -> bool {
        &&& keys_unique(self.rows@)
        &&& forall|i: int|
            0 <= i < self.rows@.len() ==> (#[trigger] self.rows@[i]).id.table@ == wish_table()
    }

    /// An empty table.
    pub fn new() -> (r: WishTable)
        ensures
            r.wf(),
            r.rows@ == Seq::<Wish>::empty(),
    {
        WishTable { rows: Vec::new(), next_number: 0 }
    }

    /// The index of the row with key `k`.
    fn find(&self, k: &String) -> (r: Option<usize>)
        requires
            self.wf(),
        ensures
            match r {
                Some(i) => has_key(self.rows@, k@) && i as int == position(self.rows@, k@)
                    && i < self.rows@.len(),
                None => !has_key(self.rows@, k@),
            },
    {
        let mut i: usize = 0;
        while i < self.rows.len()
            invariant
                self.wf(),
                i <= self.rows@.len(),
                forall|j: int| 0 <= j < i ==> #[trigger] self.rows@[j].id.key@ != k@,
            decreases self.rows@.len() - i,
        {
            if self.rows[i].id.key.eq(k) {
                proof {
                    let p = position(self.rows@, k@);
                    assert(self.rows@[i as int].id.key@ == k@);
                    assert(p == i as int);
                }
                return Some(i);
            }
            i = i + 1;
        }
        None
    }

    /// The wish at key `k`, as `caller` may see it.
    pub fn read(&self, caller: &User, k: &String) -> (r: Option<Wish>)
        requires
            self.wf(),
        ensures
            r == spec_read(self.rows@, *caller, k@),
    {
        match self.find(k) {
            Some(i) => {
                if can_access(caller, &self.rows[i]) {
                    Some(self.rows[i].duplicate())
                } else {
                    None
                }
            },
            None => None,
        }
    }

    /// A key that no row holds, formed from the first number from
    /// `next_number` on whose decimal text is free; `None` once the numbers
    /// run out.
    fn fresh_key(&mut self) -> (r: Option<String>)
        requires
            old(self).wf(),
        ensures
            final(self).wf(),
            final(self).rows@ == old(self).rows@,
            final(self).next_number >= old(self).next_number,
            match r {
                Some(k) => !has_key(final(self).rows@, k@),
                None => final(self).next_number == u64::MAX,
            },
    {
        loop
            invariant
                self.wf(),
                self.rows@ == old(self).rows@,
                self.next_number >= old(self).next_number,
            decreases u64::MAX - self.next_number,
        {
            if self.next_number == u64::MAX {
                return None;
            }
            let candidate = decimal_text(self.next_number);
            self.next_number = self.next_number + 1;
            if self.find(&candidate).is_none() {
                return Some(candidate);
            }
        }
    }

    /// Creates a wish of `caller` with `content` at `Submitted`. With a key,
    /// the key is used and an existing record at it is a `Conflict`, whoever
    /// owns that record; without one, the table assigns a key that no record
    /// holds, and fails only once its numbers run out.
    pub fn create(&mut self, caller: &User, key: Option<String>, content: String) -> (r: Result<
        Wish,
        StoreError,
    >)
        requires
            old(self).wf(),
        ensures
            final(self).wf(),
            match key {
                Some(k) => if has_key(old(self).rows@, k@) {
                    r == Err::<Wish, StoreError>(StoreError::Conflict)
                } else {
                    r matches Ok(w) && w.id.key == k
                },
                None => r is Ok || (r == Err::<Wish, StoreError>(StoreError::KeysExhausted)
                    && final(self).next_number == u64::MAX),
            },
            match r {
                Ok(w) => {
                    &&& !has_key(old(self).rows@, w.id.key@)
                    &&& w.id.table@ == wish_table()
                    &&& w.content == content
                    &&& w.status == WishStatus::Submitted
                    &&& w.created_by == Some(caller.id)
                    &&& final(self).rows@ == old(self).rows@.push(w)
                },
                Err(_) => final(self).rows@ == old(self).rows@,
            },
    {
        let k = match key {
            Some(k) => {
                if self.find(&k).is_some() {
                    return Err(StoreError::Conflict);
                }
                k
            },
            None => match self.fresh_key() {
                Some(k) => k,
                None => {
                    return Err(StoreError::KeysExhausted);
                },
            },
        };
        let table = String::from_str("wish");
        proof {
            reveal_strlit("wish");
            assert(table@ =~= wish_table());
        }
        let w = Wish {
            id: RecordId { table, key: k },
            content,
            status: WishStatus::Submitted,
            created_by: Some(caller.id.duplicate()),
        };
        let out = w.duplicate();
        self.rows.push(w);
        proof {
            let rows = self.rows@;
            let o = old(self).rows@;
            assert forall|a: int| 0 <= a < o.len() implies #[trigger] rows[a] == o[a] by {}
        }
        Ok(out)
    }

    /// Deletes the wish at key `k` if `caller` may see it, and returns it;
    /// otherwise changes nothing and returns `None`.
    pub fn delete(&mut self, caller: &User, k: &String) -> (r: Option<Wish>)
        requires
            old(self).wf(),
        ensures
            final(self).wf(),
            r == spec_read(old(self).rows@, *caller, k@),
            final(self).next_number == old(self).next_number,
            r is Some ==> final(self).rows@ == old(self).rows@.remove(position(old(self).rows@, k@)),
            r is None ==> final(self).rows@ == old(self).rows@,
    {
        match self.find(k) {
            Some(i) => {
                if can_access(caller, &self.rows[i]) {
                    let w = self.rows.remove(i);
                    proof {
                        let rows = self.rows@;
                        let o = old(self).rows@;
                        assert forall|a: int, b: int|
                            0 <= a < rows.len() && 0 <= b < rows.len() && a != b
                                implies #[trigger] rows[a].id.key@ != #[trigger] rows[b].id.key@ by {
                            let a2 = if a < i { a } else { a + 1 };
                            let b2 = if b < i { b } else { b + 1 };
                            assert(rows[a] == o[a2]);
                            assert(rows[b] == o[b2]);
                        }
                        assert forall|a: int| 0 <= a < rows.len() implies (#[trigger] rows[a]).id.table@
                            == wish_table() by {
                            let a2 = if a < i { a } else { a + 1 };
                            assert(rows[a] == o[a2]);
                        }
                    }
                    Some(w)
                } else {
                    None
                }
            },
            None => None,
        }
    }

    /// Advances the wish at key `k` one stage, if `caller` may see it and it
    /// is not delivered, stores it and returns it; otherwise changes nothing
    /// and returns `None`.
    pub fn progress(&mut self, caller: &User, k: &String) -> (r: Option<Wish>)
        requires
            old(self).wf(),
        ensures
            final(self).wf(),
            r == spec_progress(spec_read(old(self).rows@, *caller, k@)),
            final(self).rows@ == progressed_rows(old(self).rows@, *caller, k@),
            final(self).next_number == old(self).next_number,
            match r {
                Some(u) => final(self).rows@ == old(self).rows@.update(
                    position(old(self).rows@, k@),
                    u,
                ),
                None => final(self).rows@ == old(self).rows@,
            },
    {
        match self.find(k) {
            Some(i) => {
                if can_access(caller, &self.rows[i]) {
                    let cur = self.rows[i].duplicate();
                    match progress_wish_status(Some(cur)) {
                        Some(u) => {
                            let out = u.duplicate();
                            self.rows.set(i, u);
                            proof {
                                let rows = self.rows@;
                                let o = old(self).rows@;
                                assert forall|a: int| 0 <= a < rows.len() implies #[trigger] rows[a].id
                                    == o[a].id by {
                                    if a != i {
                                        assert(rows[a] == o[a]);
                                    }
                                }
                            }
                            Some(out)
                        },
                        None => None,
                    }
                } else {
                    None
                }
            },
            None => None,
        }
    }

    /// The wishes `caller` may see, in table order.
    pub fn list(&self, caller: &User) -> (r: Vec<Wish>)
        requires
            self.wf(),
        ensures
            r@ == visible_rows(self.rows@, *caller),
    {
        let mut out: Vec<Wish> = Vec::new();
        let mut i: usize = 0;
        while i < self.rows.len()
            invariant
                i <= self.rows@.len(),
                out@ == visible_rows(self.rows@.subrange(0, i as int), *caller),
            decreases self.rows@.len() - i,
        {
            proof {
                reveal(Seq::filter);
                assert(self.rows@.subrange(0, i + 1).drop_last() =~= self.rows@.subrange(0, i as int));
            }
            if can_access(caller, &self.rows[i]) {
                out.push(self.rows[i].duplicate());
            }
            i = i + 1;
        }
        assert(self.rows@.subrange(0, self.rows@.len() as int) =~= self.rows@);
        out
    }

    /// The wishes `caller` may see, in table order, each with the name of
    /// its creator from `users` where `caller` may see that identity.
    pub fn list_with_usernames(&self, caller: &User, users: &Vec<User>) -> (r: Vec<
        WishWithUsername,
    >)
        requires
            self.wf(),
        ensures
            r@.len() == visible_rows(self.rows@, *caller).len(),
            forall|j: int|
                0 <= j < r@.len() ==> #[trigger] r@[j] == with_username(
                    visible_rows(self.rows@, *caller)[j],
                    owner_name(users@, *caller, visible_rows(self.rows@, *caller)[j].created_by),
                ),
    {
        let seen = self.list(caller);
        let mut out: Vec<WishWithUsername> = Vec::new();
        let mut i: usize = 0;
        while i < seen.len()
            invariant
                i <= seen@.len(),
                out@.len() == i,
                forall|j: int|
                    0 <= j < i ==> #[trigger] out@[j] == with_username(
                        seen@[j],
                        owner_name(users@, *caller, seen@[j].created_by),
                    ),
            decreases seen@.len() - i,
        {
            let w = seen[i].duplicate();
            let name = find_owner_name(users, caller, &w.created_by);
            out.push(
                WishWithUsername {
                    id: w.id,
                    content: w.content,
                    status: w.status,
                    created_by: w.created_by,
                    username: name,
                },
            );
            i = i + 1;
        }
        out
    }
}

/// The row at index `i` is the one found at its key.
proof fn lemma_lookup_at(rows: Seq<Wish>, i: int)
    requires
        keys_unique(rows),
        0 <= i < rows.len(),
    ensures
        has_key(rows, rows[i].id.key@),
        position(rows, rows[i].id.key@) == i,
        lookup(rows, rows[i].id.key@) == Some(rows[i]),
{
    assert(rows[i].id.key@ == rows[i].id.key@);
}

/// A wish created by one identity is invisible to every other identity
/// that is not an Admin, and visible, unchanged, to its creator and to
/// every Admin.
pub proof fn lemma_read_isolation(rows: Seq<Wish>, i: int, owner: User, other: User, admin: User)
    requires
        keys_unique(rows),
        0 <= i < rows.len(),
        rows[i].created_by matches Some(o) && o@ == owner.id@,
        other.id@ != owner.id@,
        !other.is_admin(),
        admin.is_admin(),
    ensures
        spec_read(rows, other, rows[i].id.key@) is None,
        spec_read(rows, owner, rows[i].id.key@) == Some(rows[i]),
        spec_read(rows, admin, rows[i].id.key@) == Some(rows[i]),
{
    lemma_lookup_at(rows, i);
}

/// Progress on a delivered wish returns `None` and leaves every row as it
/// was.
pub proof fn lemma_progress_delivered_noop(rows: Seq<Wish>, caller: User, k: Seq<char>)
    requires
        spec_read(rows, caller, k) matches Some(w) && w.status == WishStatus::Delivered,
    ensures
        spec_progress(spec_read(rows, caller, k)) is None,
        progressed_rows(rows, caller, k) == rows,
{
}

/// After a step of progress, the caller reads back at the same key the
/// wish that the step returned, and the keys stay unique.
pub proof fn lemma_progress_read_back(rows: Seq<Wish>, caller: User, k: Seq<char>)
    requires
        keys_unique(rows),
        spec_progress(spec_read(rows, caller, k)) is Some,
    ensures
        keys_unique(progressed_rows(rows, caller, k)),
        spec_read(progressed_rows(rows, caller, k), caller, k) == spec_progress(
            spec_read(rows, caller, k),
        ),
{
    let p = position(rows, k);
    let u = spec_progress(spec_read(rows, caller, k))->0;
    let n = rows.update(p, u);
    assert forall|a: int| 0 <= a < n.len() implies #[trigger] n[a].id == rows[a].id by {}
    assert(keys_unique(n));
    lemma_lookup_at(n, p);
}

/// Asking four times for progress on a wish at `Submitted` moves it to
/// `CreationInProgress`, `InDelivery` and `Delivered` in turn, and the
/// fourth request returns `None` and changes nothing.
pub proof fn lemma_progress_four_times(rows: Seq<Wish>, caller: User, k: Seq<char>)
    requires
        keys_unique(rows),
        spec_read(rows, caller, k) matches Some(w) && w.status == WishStatus::Submitted,
    ensures
        ({
            let r1 = progressed_rows(rows, caller, k);
            let r2 = progressed_rows(r1, caller, k);
            let r3 = progressed_rows(r2, caller, k);
            &&& spec_progress(spec_read(rows, caller, k)) matches Some(u)
                && u.status == WishStatus::CreationInProgress
            &&& spec_progress(spec_read(r1, caller, k)) matches Some(u)
                && u.status == WishStatus::InDelivery
            &&& spec_progress(spec_read(r2, caller, k)) matches Some(u)
                && u.status == WishStatus::Delivered
            &&& spec_progress(spec_read(r3, caller, k)) is None
            &&& progressed_rows(r3, caller, k) == r3
        }),
{
    let r1 = progressed_rows(rows, caller, k);
    lemma_progress_read_back(rows, caller, k);
    let r2 = progressed_rows(r1, caller, k);
    lemma_progress_read_back(r1, caller, k);
    let r3 = progressed_rows(r2, caller, k);
    lemma_progress_read_back(r2, caller, k);
    lemma_progress_delivered_noop(r3, caller, k);
}

} // verus!
