use vstd::prelude::*;
use crate::clock::now_timestamp;

verus! {

/// Account status codes as stored in the `status` column.
pub const STATUS_ACTIVE: i32 = 1;

pub const STATUS_INACTIVE: i32 = 2;

pub const STATUS_DELETED: i32 = 3;

/// A user record as the store holds it. `password` carries the encoded
/// credential hash and is present only on the lookups that need it;
/// every value handed to a caller is redacted first.
#[derive(Debug)]
pub struct User {
    pub id: i64,
    pub username: String,
    pub email: String,
    pub password: Option<String>,
    pub permissions: i64,
    pub status: i32,
    pub created_at: u64,
    pub updated_at: u64,
}

impl User {
    /// The same record with the credential hash removed.
    pub open spec fn spec_without_password(self) -> User {
        User { password: None, ..self }
    }

    /// The same record as the paginated search returns it: no credential
    /// hash and no permission bits.
    pub open spec fn spec_public_view(self) -> User {
        User { password: None, permissions: 0, ..self }
    }

    /// An exact copy of the record.
    pub fn duplicate(&self) -> (r: User)
        ensures
            r == *self,
    {
        User {
            id: self.id,
            username: self.username.clone(),
            email: self.email.clone(),
            password: match &self.password {
                Some(p) => Some(p.clone()),
                None => None,
            },
            permissions: self.permissions,
            status: self.status,
            created_at: self.created_at,
            updated_at: self.updated_at,
        }
    }

    /// A copy with the credential hash removed.
    pub fn without_password(&self) -> (r: User)
        ensures
            r == self.spec_without_password(),
    {
        User {
            id: self.id,
            username: self.username.clone(),
            email: self.email.clone(),
            password: None,
            permissions: self.permissions,
            status: self.status,
            created_at: self.created_at,
            updated_at: self.updated_at,
        }
    }

    /// A copy as the paginated search returns it: no credential hash and
    /// no permission bits.
    pub fn public_view(&self) -> (r: User)
        ensures
            r == self.spec_public_view(),
    {
        User {
            id: self.id,
            username: self.username.clone(),
            email: self.email.clone(),
            password: None,
            permissions: 0,
            status: self.status,
            created_at: self.created_at,
            updated_at: self.updated_at,
        }
    }

    pub fn new(id: i64, username: String, email: String) -> (r: User)
        ensures
            r.id == id,
            r.username == username,
            r.email == email,
            r.password matches Some(p) && p@ == "fake_password"@,
            r.permissions == 0,
            r.status == 1,
            r.created_at == r.updated_at,
    {
        let now = now_timestamp();
        User {
            id,
            username,
            email,
            password: Some("fake_password".to_owned()),
            permissions: 0,
            status: 1,
            created_at: now,
            updated_at: now,
        }
    }

    pub fn empty() -> (r: User)
        ensures
            r.id == 0,
            r.username@ == Seq::<char>::empty(),
            r.email@ == Seq::<char>::empty(),
            r.password matches Some(p) && p@ == Seq::<char>::empty(),
            r.permissions == 0,
            r.status == 0,
    {
        let now = now_timestamp();
        User {
            id: 0,
            username: String::new(),
            email: String::new(),
            password: Some(String::new()),
            permissions: 0,
            status: 0,
            created_at: now,
            updated_at: now,
        }
    }
}

} // verus!
