//! Registered identities: names are unique, a new identity holds the
//! `Default` role alone, and login succeeds only for a known name whose
//! stored password hash the backend's one-way comparison accepts.
use vstd::prelude::*;
use vstd::string::StringExecFns;
use crate::model::{signup_roles, RecordId, User, UserRole};
use crate::service::ServiceError;
use crate::store::StoreError;

verus! {

/// The name of the table that holds identities.
pub open spec fn user_table() -> Seq<char> {
    seq!['u', 's', 'e', 'r']
}

/// Whether some identity is registered under `name`.
pub open spec fn name_taken(users: Seq<User>, name: Seq<char>) -> bool {
    exists|i: int| 0 <= i < users.len() && #[trigger] users[i].name@ == name
}

/// The identity registered under `name`, where there is one.
pub open spec fn by_name(users: Seq<User>, name: Seq<char>) -> Option<User> {
    if name_taken(users, name) {
        Some(users[choose|i: int| 0 <= i < users.len() && #[trigger] users[i].name@ == name])
    } else {
        None
    }
}

/// No two identities share a name.
pub open spec fn names_unique(users: Seq<User>) -> bool {
    forall|i: int, j: int|
        0 <= i < users.len() && 0 <= j < users.len() && i != j ==> #[trigger] users[i].name@
            != #[trigger] users[j].name@
}

/// The result of a login: the identity, when the name is known and the
/// backend's one-way comparison accepted the password against its stored
/// hash; `InvalidCredentials` otherwise, without saying which check failed.
pub open spec fn spec_login(candidate: Option<User>, password_matches: bool) -> Result<User, ServiceError> {
    match candidate {
        Some(u) => if password_matches {
            Ok(u)
        } else {
            Err(ServiceError::InvalidCredentials)
        },
        None => Err(ServiceError::InvalidCredentials),
    }
}

fn duplicate_roles(roles: &Vec<UserRole>) -> (r: Vec<UserRole>)
    ensures
        r@ == roles@,
{
    let mut out: Vec<UserRole> = Vec::new();
    let mut i: usize = 0;
    while i < roles.len()
        invariant
            i <= roles@.len(),
            out@ == roles@.subrange(0, i as int),
        decreases roles@.len() - i,
    {
        out.push(roles[i]);
        assert(out@ =~= roles@.subrange(0, i + 1));
        i = i + 1;
    }
    assert(roles@.subrange(0, roles@.len() as int) =~= roles@);
    out
}

fn duplicate_user(u: &User) -> (r: User)
    ensures
        r.id == u.id,
        r.name == u.name,
        r.pass == u.pass,
        r.roles@ == u.roles@,
{
    User {
        id: u.id.duplicate(),
        name: u.name.clone(),
        pass: u.pass.clone(),
        roles: duplicate_roles(&u.roles),
    }
}

/// Decides a login from the identity found under the given name and the
/// backend's comparison of the given password with its stored hash.
pub fn login_result(candidate: Option<User>, password_matches: bool) -> (r: Result<User, ServiceError>)
    ensures
        r == spec_login(candidate, password_matches),
{
    match candidate {
        Some(u) => if password_matches {
            Ok(u)
        } else {
            Err(ServiceError::InvalidCredentials)
        },
        None => Err(ServiceError::InvalidCredentials),
    }
}

/// The registered identities. Each is keyed by its name.
pub struct UserTable {
    pub users: Vec<User>,
}

impl UserTable {
    /// Names are unique, and each identity lives in the user table under
    /// its name.
    pub open spec fn wf(&self) -> bool {
        &&& names_unique(self.users@)
        &&& forall|i: int|
            0 <= i < self.users@.len() ==> (#[trigger] self.users@[i]).id@ == (
                user_table(),
                self.users@[i].name@,
            )
    }

    /// An empty table.
    pub fn new() -> (r: UserTable)
        ensures
            r.wf(),
            r.users@ == Seq::<User>::empty(),
    {
        UserTable { users: Vec::new() }
    }

    fn position_of(&self, name: &String) -> (r: Option<usize>)
        requires
            self.wf(),
        ensures
            match r {
                Some(i) => i < self.users@.len() && self.users@[i as int].name@ == name@
                    && by_name(self.users@, name@) == Some(self.users@[i as int]),
                None => !name_taken(self.users@, name@),
            },
    {
        let mut i: usize = 0;
        while i < self.users.len()
            invariant
                self.wf(),
                i <= self.users@.len(),
                forall|j: int| 0 <= j < i ==> #[trigger] self.users@[j].name@ != name@,
            decreases self.users@.len() - i,
        {
            if self.users[i].name.eq(name) {
                return Some(i);
            }
            i = i + 1;
        }
        None
    }

    /// The identity registered under `name`.
    pub fn find_by_name(&self, name: &String) -> (r: Option<User>)
        requires
            self.wf(),
        ensures
            match by_name(self.users@, name@) {
                Some(u) => r matches Some(v) && v.id == u.id && v.name == u.name && v.pass == u.pass
                    && v.roles@ == u.roles@,
                None => r is None,
            },
    {
        match self.position_of(name) {
            Some(i) => Some(duplicate_user(&self.users[i])),
            None => None,
        }
    }

    /// Registers `name` with the stored hash of its password. A taken name
    /// is a `Conflict`; a new identity holds the `Default` role alone.
    pub fn register(&mut self, name: String, pass_hash: String) -> (r: Result<User, StoreError>)
        requires
            old(self).wf(),
        ensures
            final(self).wf(),
            if name_taken(old(self).users@, name@) {
                r == Err::<User, StoreError>(StoreError::Conflict) && final(self).users@ == old(
                    self,
                ).users@
            } else {
                r matches Ok(u) && {
                    &&& u.id@ == (user_table(), name@)
                    &&& u.name == name
                    &&& u.pass == pass_hash
                    &&& u.roles@ == seq![UserRole::Default]
                    &&& final(self).users@.drop_last() == old(self).users@
                    &&& final(self).users@.len() == old(self).users@.len() + 1
                    &&& final(self).users@.last().id == u.id
                    &&& final(self).users@.last().name == u.name
                    &&& final(self).users@.last().pass == u.pass
                    &&& final(self).users@.last().roles@ == u.roles@
                }
            },
    {
        if self.position_of(&name).is_some() {
            return Err(StoreError::Conflict);
        }
        let table = String::from_str("user");
        proof {
            reveal_strlit("user");
            assert(table@ =~= user_table());
        }
        let u = User {
            id: RecordId { table, key: name.clone() },
            name,
            pass: pass_hash,
            roles: signup_roles(),
        };
        let out = duplicate_user(&u);
        self.users.push(u);
        proof {
            let us = self.users@;
            let o = old(self).users@;
            assert forall|a: int| 0 <= a < o.len() implies #[trigger] us[a] == o[a] by {}
            assert(us.drop_last() =~= o);
        }
        Ok(out)
    }
}

/// Once a name is registered, a second registration under it is refused
/// whatever the password, a login under it yields that identity exactly
/// when the password check accepts, and a login under an unknown name
/// fails the same way as a wrong password.
pub proof fn lemma_register_then_login(users: Seq<User>, i: int, other: Seq<char>, password_matches: bool)
    requires
        names_unique(users),
        0 <= i < users.len(),
        !name_taken(users, other),
    ensures
        name_taken(users, users[i].name@),
        by_name(users, users[i].name@) == Some(users[i]),
        spec_login(by_name(users, users[i].name@), true) == Ok::<User, ServiceError>(users[i]),
        spec_login(by_name(users, users[i].name@), false) == Err::<User, ServiceError>(
            ServiceError::InvalidCredentials,
        ),
        spec_login(by_name(users, other), password_matches) == Err::<User, ServiceError>(
            ServiceError::InvalidCredentials,
        ),
{
    assert(users[i].name@ == users[i].name@);
}

} // verus!
