//! The records that the service stores and exchanges.
use vstd::prelude::*;
use vstd::string::StringExecFns;

verus! {

/// A record id: the table a record lives in and its key there.
pub struct RecordId {
    pub table: String,
    pub key: String,
}

impl View for RecordId {
    type V = (Seq<char>, Seq<char>);

    open spec fn view(&self) -> (Seq<char>, Seq<char>) {
        (self.table@, self.key@)
    }
}

impl RecordId {
    /// A copy of the id.
    pub fn duplicate(&self) -> (r: RecordId)
        ensures
            r == *self,
    {
        RecordId { table: self.table.clone(), key: self.key.clone() }
    }

    /// Whether two ids denote the same record.
    pub fn same(&self, other: &RecordId) -> (r: bool)
        ensures
            r == (self@ == other@),
    {
        self.table.eq(&other.table) && self.key.eq(&other.key)
    }
}

/// The lifecycle stage of a wish.
#[derive(PartialEq, Eq, Structural, Clone, Copy, Debug)]
pub enum WishStatus {
    Submitted,
    CreationInProgress,
    InDelivery,
    Delivered,
}

/// The roles an identity may hold.
#[derive(PartialEq, Eq, Structural, Clone, Copy, Debug)]
pub enum UserRole {
    Default,
    Admin,
}

/// The body of a request to create a wish.
pub struct WishCreateRequest {
    pub content: String,
}

/// A name and password, as given to registration and login.
pub struct Credentials {
    pub name: String,
    pub pass: String,
}

/// What is written to the backend when a wish is created or updated.
pub struct WishContent {
    pub content: String,
    pub status: WishStatus,
}

impl WishContent {
    /// The content of a newly created wish: the requested text, at
    /// `Submitted`.
    pub fn submitted(req: &WishCreateRequest) -> (r: WishContent)
        ensures
            r.content == req.content,
            r.status == WishStatus::Submitted,
    {
        WishContent { content: req.content.clone(), status: WishStatus::Submitted }
    }
}

/// A stored wish. `created_by` is set by the store from the creating
/// identity and never changes afterwards.
pub struct Wish {
    pub id: RecordId,
    pub content: String,
    pub status: WishStatus,
    pub created_by: Option<RecordId>,
}

fn duplicate_owner(o: &Option<RecordId>) -> (r: Option<RecordId>)
    ensures
        r == *o,
{
    match o {
        Some(id) => Some(id.duplicate()),
        None => None,
    }
}

impl Wish {
    /// A copy of the wish.
    pub fn duplicate(&self) -> (r: Wish)
        ensures
            r == *self,
    {
        Wish {
            id: self.id.duplicate(),
            content: self.content.clone(),
            status: self.status,
            created_by: duplicate_owner(&self.created_by),
        }
    }
}

/// A wish together with the name of the identity that created it.
pub struct WishWithUsername {
    pub id: RecordId,
    pub content: String,
    pub status: WishStatus,
    pub created_by: Option<RecordId>,
    pub username: Option<String>,
}

/// A stored identity. `pass` holds the one-way hash of the password.
pub struct User {
    pub id: RecordId,
    pub name: String,
    pub pass: String,
    pub roles: Vec<UserRole>,
}

impl User {
    /// Whether the identity holds the `Admin` role.
    pub open spec fn is_admin(&self) -> bool {
        self.roles@.contains(UserRole::Admin)
    }

    /// Whether the identity holds the `Admin` role.
    pub fn has_admin_role(&self) -> (r: bool)
        ensures
            r == self.is_admin(),
    {
        let mut i: usize = 0;
        while i < self.roles.len()
            invariant
                i <= self.roles@.len(),
                forall|j: int| 0 <= j < i ==> self.roles@[j] != UserRole::Admin,
            decreases self.roles@.len() - i,
        {
            if self.roles[i] == UserRole::Admin {
                return true;
            }
            i = i + 1;
        }
        false
    }
}

/// The roles a newly registered identity receives: `Default` alone. An
/// identity never grants itself a role.
pub fn signup_roles() -> (r: Vec<UserRole>)
    ensures
        r@ == seq![UserRole::Default],
{
    let r = vec![UserRole::Default];
    assert(r@ =~= seq![UserRole::Default]);
    r
}

/// The answer to an authentication check: a message, the identity the
/// credential resolved to, and the backend's session descriptor.
pub struct InfoResponse {
    pub info: String,
    pub user: Option<User>,
    pub session: Option<String>,
}

impl InfoResponse {
    /// A successful check for the given identity and session.
    pub fn success(user: Option<User>, session: Option<String>) -> (r: InfoResponse)
        ensures
            r.info@ == seq!['S', 'u', 'c', 'c', 'e', 's', 's', '!'],
            r.user == user,
            r.session == session,
    {
        let info = String::from_str("Success!");
        proof {
            reveal_strlit("Success!");
        }
        InfoResponse { info, user, session }
    }
}

} // verus!
