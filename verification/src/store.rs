//! An in-memory user store with a uniqueness constraint on email. The
//! signup and login flows run against it; a row maps a user identifier
//! to an email, an optional display name and an optional password
//! digest (a user may exist without a local password).

use vstd::prelude::*;

use crate::error::ApiError;
use crate::strutil::str_eq;

verus! {

/// One user row.
#[derive(Debug, Clone)]
pub struct UserRecord {
    pub id: String,
    pub email: String,
    pub name: Option<String>,
    pub password_hash: Option<String>,
    /// Creation instant, seconds since the Unix epoch.
    pub created_at: i64,
    /// Last-update instant, seconds since the Unix epoch.
    pub updated_at: i64,
}

/// Whether some row carries `email`.
pub open spec fn has_email(rows: Seq<UserRecord>, email: Seq<char>) -> bool {
    exists|i: int| 0 <= i < rows.len() && rows[i].email@ == email
}

/// Whether some row carries `id`.
pub open spec fn has_id(rows: Seq<UserRecord>, id: Seq<char>) -> bool {
    exists|i: int| 0 <= i < rows.len() && rows[i].id@ == id
}

/// The uniqueness constraint: emails are pairwise distinct.
pub open spec fn emails_unique(rows: Seq<UserRecord>) -> bool {
    forall|i: int, j: int| 0 <= i < j < rows.len() ==> rows[i].email@ != rows[j].email@
}

/// The store itself: a sequence of rows whose emails stay pairwise
/// distinct.
pub struct UserStore {
    rows: Vec<UserRecord>,
}

impl View for UserStore {
    type V = Seq<UserRecord>;

    closed spec fn view(&self) -> Seq<UserRecord> {
        self.rows@
    }
}

impl UserStore {
    /// The store's invariant: no two rows share an email.
    pub open spec fn wf(&self) -> bool {
        emails_unique(self@)
    }

    /// An empty store.
    pub fn new() -> (s: Self)
        ensures
            s@ == Seq::<UserRecord>::empty(),
            s.wf(),
    {
        UserStore { rows: Vec::new() }
    }

    /// How many rows the store holds.
    pub fn len(&self) -> (n: usize)
        ensures
            n == self@.len(),
    {
        self.rows.len()
    }

    /// Looks a user up by email.
    pub fn find_by_email(&self, email: &str) -> (r: Option<&UserRecord>)
        ensures
            r is Some <==> has_email(self@, email@),
            r matches Some(u) ==> exists|i: int|
                0 <= i < self@.len() && self@[i] == *u && u.email@ == email@,
    {
        let mut i: usize = 0;
        while i < self.rows.len()
            invariant
                i <= self.rows.len(),
                forall|j: int| 0 <= j < i ==> self.rows@[j].email@ != email@,
            decreases self.rows.len() - i,
        {
            if str_eq(self.rows[i].email.as_str(), email) {
                return Some(&self.rows[i]);
            }
            i = i + 1;
        }
        None
    }

    /// Looks a user up by identifier.
    pub fn find_by_id(&self, id: &str) -> (r: Option<&UserRecord>)
        ensures
            r is Some <==> has_id(self@, id@),
            r matches Some(u) ==> exists|i: int|
                0 <= i < self@.len() && self@[i] == *u && u.id@ == id@,
    {
        let mut i: usize = 0;
        while i < self.rows.len()
            invariant
                i <= self.rows.len(),
                forall|j: int| 0 <= j < i ==> self.rows@[j].id@ != id@,
            decreases self.rows.len() - i,
        {
            if str_eq(self.rows[i].id.as_str(), id) {
                return Some(&self.rows[i]);
            }
            i = i + 1;
        }
        None
    }

    /// Inserts a new row. A duplicate email is rejected as a Conflict
    /// and leaves the store unchanged, so a second row with an email
    /// already present can never persist.
    pub fn insert(&mut self, user: UserRecord) -> (r: Result<(), ApiError>)
        requires
            old(self).wf(),
        ensures
            final(self).wf(),
            has_email(old(self)@, user.email@) ==> r is Err && r->Err_0 is Conflict
                && r->Err_0.spec_detail() == "Email already registered"@ && final(self)@ == old(
                self,
            )@,
            !has_email(old(self)@, user.email@) ==> r is Ok && final(self)@ == old(self)@.push(
                user,
            ),
    {
        if self.find_by_email(user.email.as_str()).is_some() {
            return Err(ApiError::Conflict("Email already registered".to_owned()));
        }
        self.rows.push(user);
        Ok(())
    }
}

} // verus!
