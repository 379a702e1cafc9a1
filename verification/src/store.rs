use vstd::prelude::*;
use crate::text::{
    id_to_string, spec_contains_ci, spec_dec_str, str_contains_ci, str_eq,
};
use crate::user::User;

verus! {

/// The columns a caller may search or check by; the fixed allow-list
/// `{id, username, email}` as a closed enumeration, so no column name is
/// ever built from a string.
pub enum UserColumn {
    Id,
    Username,
    Email,
}

/// There is a record with this id.
pub open spec fn spec_contains_id(users: Seq<User>, id: i64) -> bool {
    exists|i: int| 0 <= i < users.len() && users[i].id == id
}

/// The position of the record with this id (unique under `wf`).
pub open spec fn spec_idx_of_id(users: Seq<User>, id: i64) -> int {
    choose|i: int| 0 <= i < users.len() && users[i].id == id
}

/// The record with this id (meaningful only when present).
pub open spec fn spec_user_by_id(users: Seq<User>, id: i64) -> User {
    users[spec_idx_of_id(users, id)]
}

pub open spec fn spec_contains_username(users: Seq<User>, username: Seq<char>) -> bool {
    exists|i: int| 0 <= i < users.len() && users[i].username@ == username
}

pub open spec fn spec_contains_email(users: Seq<User>, email: Seq<char>) -> bool {
    exists|i: int| 0 <= i < users.len() && users[i].email@ == email
}

/// The position of the record with this email (unique under `wf`).
pub open spec fn spec_idx_of_email(users: Seq<User>, email: Seq<char>) -> int {
    choose|i: int| 0 <= i < users.len() && users[i].email@ == email
}

/// The record with this email (meaningful only when present).
pub open spec fn spec_user_by_email(users: Seq<User>, email: Seq<char>) -> User {
    users[spec_idx_of_email(users, email)]
}

/// Some record already holds this username or this email: the condition
/// under which a create must abort with a conflict.
pub open spec fn spec_duplicate_exists(
    users: Seq<User>,
    username: Seq<char>,
    email: Seq<char>,
) -> bool {
    spec_contains_username(users, username) || spec_contains_email(users, email)
}

/// A record other than `exclude_id` holds this value in this column: the
/// condition under which an update must abort with a conflict.
pub open spec fn spec_other_has_column(
    users: Seq<User>,
    col: UserColumn,
    value: Seq<char>,
    exclude_id: i64,
) -> bool {
    exists|i: int|
        0 <= i < users.len() && spec_column_text(users[i], col) == value && users[i].id
            != exclude_id
}

/// The column a textual key names, if it is on the allow-list.
pub open spec fn spec_column_of(key: Seq<char>) -> Option<UserColumn> {
    if key == "id"@ {
        Some(UserColumn::Id)
    } else if key == "username"@ {
        Some(UserColumn::Username)
    } else if key == "email"@ {
        Some(UserColumn::Email)
    } else {
        None
    }
}

/// The textual rendering of a column of a record, as the search and the
/// duplicate checks compare it.
pub open spec fn spec_column_text(u: User, col: UserColumn) -> Seq<char> {
    match col {
        UserColumn::Id => spec_dec_str(u.id as int),
        UserColumn::Username => u.username@,
        UserColumn::Email => u.email@,
    }
}

/// A record matches the search filter when its column text holds the
/// value as a case-insensitive substring.
pub open spec fn spec_column_matches(u: User, col: UserColumn, value: Seq<char>) -> bool {
    spec_contains_ci(spec_column_text(u, col), value)
}

/// The public views of the records matching the filter, in store order.
pub open spec fn spec_search_results(
    users: Seq<User>,
    col: UserColumn,
    value: Seq<char>,
) -> Seq<User>
    decreases users.len(),
{
    if users.len() == 0 {
        Seq::empty()
    } else {
        let rest = spec_search_results(users.drop_last(), col, value);
        if spec_column_matches(users.last(), col, value) {
            rest.push(users.last().spec_public_view())
        } else {
            rest
        }
    }
}

/// The in-memory model of the `users` table. Its invariant is exactly
/// what the storage layer's constraints guarantee: positive ids below
/// the id counter, ids unique, usernames unique, emails unique, and a
/// credential hash stored in every row.
pub struct UserStore {
    pub users: Vec<User>,
    pub next_id: i64,
}

impl UserStore {
    pub open spec fn wf(self) -> bool {
        &&& 1 <= self.next_id
        &&& forall|i: int|
            0 <= i < self.users@.len() ==> 0 < (#[trigger] self.users@[i]).id < self.next_id
        &&& forall|i: int, j: int|
            0 <= i < self.users@.len() && 0 <= j < self.users@.len() && i != j ==> (
            #[trigger] self.users@[i]).id != (#[trigger] self.users@[j]).id
        &&& forall|i: int, j: int|
            0 <= i < self.users@.len() && 0 <= j < self.users@.len() && i != j ==> (
            #[trigger] self.users@[i]).username@ != (#[trigger] self.users@[j]).username@
        &&& forall|i: int, j: int|
            0 <= i < self.users@.len() && 0 <= j < self.users@.len() && i != j ==> (
            #[trigger] self.users@[i]).email@ != (#[trigger] self.users@[j]).email@
        &&& forall|i: int| 0 <= i < self.users@.len() ==> (#[trigger] self.users@[i]).password is Some
    }

    /// An empty table, with the id counter at one.
    pub fn new() -> (r: UserStore)
        ensures
            r.wf(),
            r.users@.len() == 0,
            r.next_id == 1,
    {
        UserStore { users: Vec::new(), next_id: 1 }
    }

    /// Finds the record with this id, if any.
    pub fn find_by_id(&self, id: i64) -> (r: Option<User>)
        requires
            self.wf(),
        ensures
            r is Some <==> spec_contains_id(self.users@, id),
            r matches Some(u) ==> u == spec_user_by_id(self.users@, id) && u.id == id,
    {
        let n = self.users.len();
        let mut i: usize = 0;
        while i < n
            invariant
                self.wf(),
                n == self.users@.len(),
                0 <= i <= n,
                forall|j: int| 0 <= j < i ==> (#[trigger] self.users@[j]).id != id,
            decreases n - i,
        {
            if self.users[i].id == id {
                let found = self.users[i].duplicate();
                proof {
                    assert(spec_contains_id(self.users@, id));
                    let k = spec_idx_of_id(self.users@, id);
                    assert(0 <= k < self.users@.len() && self.users@[k].id == id);
                    assert(k == i as int);
                }
                return Some(found);
            }
            i += 1;
        }
        None
    }

    /// Finds the record with this email, if any, credential hash
    /// included: the lookup behind a login attempt.
    pub fn find_by_email(&self, email: &str) -> (r: Option<User>)
        requires
            self.wf(),
        ensures
            r is Some <==> spec_contains_email(self.users@, email@),
            r matches Some(u) ==> u == spec_user_by_email(self.users@, email@) && u.email@
                == email@,
    {
        let n = self.users.len();
        let mut i: usize = 0;
        while i < n
            invariant
                self.wf(),
                n == self.users@.len(),
                0 <= i <= n,
                forall|j: int| 0 <= j < i ==> (#[trigger] self.users@[j]).email@ != email@,
            decreases n - i,
        {
            if str_eq(self.users[i].email.as_str(), email) {
                let found = self.users[i].duplicate();
                proof {
                    assert(spec_contains_email(self.users@, email@));
                    let k = spec_idx_of_email(self.users@, email@);
                    assert(0 <= k < self.users@.len() && self.users@[k].email@ == email@);
                    assert(k == i as int);
                }
                return Some(found);
            }
            i += 1;
        }
        None
    }

    /// Whether a record with this id exists; the model of the
    /// row-existence check that guards the update paths.
    pub fn contains_id(&self, id: i64) -> (r: bool)
        ensures
            r == spec_contains_id(self.users@, id),
    {
        let n = self.users.len();
        let mut i: usize = 0;
        while i < n
            invariant
                n == self.users@.len(),
                0 <= i <= n,
                forall|j: int| 0 <= j < i ==> (#[trigger] self.users@[j]).id != id,
            decreases n - i,
        {
            if self.users[i].id == id {
                return true;
            }
            i += 1;
        }
        false
    }

    /// The uniqueness probe of the create path: is this username or this
    /// email already taken by any record?
    pub fn exists_by_username_or_email(&self, username: &str, email: &str) -> (r: bool)
        ensures
            r == spec_duplicate_exists(self.users@, username@, email@),
    {
        let n = self.users.len();
        let mut i: usize = 0;
        while i < n
            invariant
                n == self.users@.len(),
                0 <= i <= n,
                forall|j: int|
                    0 <= j < i ==> (#[trigger] self.users@[j]).username@ != username@ && (
                    #[trigger] self.users@[j]).email@ != email@,
            decreases n - i,
        {
            if str_eq(self.users[i].username.as_str(), username) || str_eq(
                self.users[i].email.as_str(),
                email,
            ) {
                return true;
            }
            i += 1;
        }
        false
    }

    /// The textual rendering of one column of a record.
    fn column_text(u: &User, col: &UserColumn) -> (r: String)
        requires
            u.id >= 0,
        ensures
            r@ == spec_column_text(*u, *col),
    {
        match col {
            UserColumn::Id => id_to_string(u.id),
            UserColumn::Username => u.username.clone(),
            UserColumn::Email => u.email.clone(),
        }
    }

    /// The uniqueness probe of the update path: does a record other than
    /// `exclude_id` hold this value in this column?
    pub fn exists_by_column_excluding_id(
        &self,
        col: &UserColumn,
        value: &str,
        exclude_id: i64,
    ) -> (r: bool)
        requires
            self.wf(),
        ensures
            r == spec_other_has_column(self.users@, *col, value@, exclude_id),
    {
        let n = self.users.len();
        let mut i: usize = 0;
        while i < n
            invariant
                self.wf(),
                n == self.users@.len(),
                0 <= i <= n,
                forall|j: int|
                    0 <= j < i ==> !(spec_column_text(#[trigger] self.users@[j], *col) == value@
                        && self.users@[j].id != exclude_id),
            decreases n - i,
        {
            let text = Self::column_text(&self.users[i], col);
            if str_eq(text.as_str(), value) && self.users[i].id != exclude_id {
                return true;
            }
            i += 1;
        }
        false
    }

    /// Appends a fresh record, giving it the next id. The caller has
    /// already established, inside the same critical section, that the
    /// username and the email are free.
    pub fn insert(
        &mut self,
        username: String,
        email: String,
        password_hash: String,
        permissions: i64,
        now: u64,
    ) -> (r: i64)
        requires
            old(self).wf(),
            old(self).next_id < 0x7fffffffffffffff,
            !spec_duplicate_exists(old(self).users@, username@, email@),
        ensures
            final(self).wf(),
            r == old(self).next_id,
            final(self).next_id == old(self).next_id + 1,
            final(self).users@ == old(self).users@.push(
                (User {
                    id: r,
                    username: username,
                    email: email,
                    password: Some(password_hash),
                    permissions: permissions,
                    status: 1,
                    created_at: now,
                    updated_at: now,
                }),
            ),
    {
        let id = self.next_id;
        let record = User {
            id,
            username,
            email,
            password: Some(password_hash),
            permissions,
            status: 1,
            created_at: now,
            updated_at: now,
        };
        self.users.push(record);
        self.next_id = id + 1;
        id
    }

    /// Overwrites exactly the supplied fields of the record with this
    /// id and stamps the update time, returning the post-update record.
    /// The caller has already established, inside the same critical
    /// section, that no other record holds the new username or email.
    pub fn update_fields(
        &mut self,
        id: i64,
        username: Option<String>,
        email: Option<String>,
        permissions: Option<i64>,
        now: u64,
    ) -> (r: Option<User>)
        requires
            old(self).wf(),
            username matches Some(u) ==> !spec_other_has_column(
                old(self).users@,
                UserColumn::Username,
                u@,
                id,
            ),
            email matches Some(e) ==> !spec_other_has_column(
                old(self).users@,
                UserColumn::Email,
                e@,
                id,
            ),
        ensures
            final(self).wf(),
            final(self).next_id == old(self).next_id,
            !spec_contains_id(old(self).users@, id) ==> r is None && final(self).users@ == old(
                self,
            ).users@,
            spec_contains_id(old(self).users@, id) ==> ({
                let i = spec_idx_of_id(old(self).users@, id);
                let updated = spec_apply_update(
                    old(self).users@[i],
                    username,
                    email,
                    permissions,
                    now,
                );
                r == Some(updated) && final(self).users@ == old(self).users@.update(i, updated)
            }),
    {
        let ghost us0 = self.users@;
        let ghost g_username = username;
        let ghost g_email = email;
        let ghost g_permissions = permissions;
        let n = self.users.len();
        let mut i: usize = 0;
        while i < n
            invariant
                self.wf(),
                us0 == old(self).users@,
                self.users@ == old(self).users@,
                self.next_id == old(self).next_id,
                n == self.users@.len(),
                0 <= i <= n,
                g_username == username,
                g_email == email,
                g_permissions == permissions,
                g_username matches Some(u) ==> !spec_other_has_column(
                    us0,
                    UserColumn::Username,
                    u@,
                    id,
                ),
                g_email matches Some(e) ==> !spec_other_has_column(us0, UserColumn::Email, e@, id),
                forall|j: int| 0 <= j < i ==> (#[trigger] self.users@[j]).id != id,
            decreases n - i,
        {
            if self.users[i].id == id {
                let old_rec = self.users[i].duplicate();
                proof {
                    assert(old_rec == us0[i as int]);
                }
                let updated = User {
                    id: old_rec.id,
                    username: match username {
                        Some(x) => x,
                        None => old_rec.username,
                    },
                    email: match email {
                        Some(x) => x,
                        None => old_rec.email,
                    },
                    password: old_rec.password,
                    permissions: match permissions {
                        Some(x) => x,
                        None => old_rec.permissions,
                    },
                    status: old_rec.status,
                    created_at: old_rec.created_at,
                    updated_at: now,
                };
                let ghost up = updated;
                let result = updated.duplicate();
                self.users.set(i, updated);
                proof {
                    let i_ = i as int;
                    assert(spec_contains_id(us0, id));
                    let k = spec_idx_of_id(us0, id);
                    assert(0 <= k < us0.len() && us0[k].id == id);
                    assert(k == i_);
                    assert(up == spec_apply_update(us0[i_], g_username, g_email, g_permissions, now));
                    assert(self.users@ == us0.update(i_, up));
                    assert forall|m: int|
                        0 <= m < us0.len() && m != i_ implies us0[m].username@
                            != up.username@ by {
                        assert(us0[m].id != us0[i_].id);
                        if us0[m].username@ == up.username@ {
                            if g_username is Some {
                                assert(spec_column_text(us0[m], UserColumn::Username) == up.username@);
                                assert(spec_other_has_column(
                                    us0,
                                    UserColumn::Username,
                                    up.username@,
                                    id,
                                ));
                            } else {
                                assert(us0[m].username@ == us0[i_].username@);
                            }
                            assert(false);
                        }
                    }
                    assert forall|m: int|
                        0 <= m < us0.len() && m != i_ implies us0[m].email@ != up.email@ by {
                        assert(us0[m].id != us0[i_].id);
                        if us0[m].email@ == up.email@ {
                            if g_email is Some {
                                assert(spec_column_text(us0[m], UserColumn::Email) == up.email@);
                                assert(spec_other_has_column(us0, UserColumn::Email, up.email@, id));
                            } else {
                                assert(us0[m].email@ == us0[i_].email@);
                            }
                            assert(false);
                        }
                    }
                }
                return Some(result);
            }
            i += 1;
        }
        None
    }

    /// Sets the status column of the record with this id; reports
    /// whether the record exists.
    pub fn update_status(&mut self, id: i64, status: i32) -> (r: bool)
        requires
            old(self).wf(),
        ensures
            final(self).wf(),
            final(self).next_id == old(self).next_id,
            r == spec_contains_id(old(self).users@, id),
            !spec_contains_id(old(self).users@, id) ==> final(self).users@ == old(self).users@,
            spec_contains_id(old(self).users@, id) ==> ({
                let i = spec_idx_of_id(old(self).users@, id);
                final(self).users@ == old(self).users@.update(
                    i,
                    (User { status: status, ..old(self).users@[i] }),
                )
            }),
    {
        let ghost us0 = self.users@;
        let n = self.users.len();
        let mut i: usize = 0;
        while i < n
            invariant
                self.wf(),
                us0 == old(self).users@,
                self.users@ == old(self).users@,
                self.next_id == old(self).next_id,
                n == self.users@.len(),
                0 <= i <= n,
                forall|j: int| 0 <= j < i ==> (#[trigger] self.users@[j]).id != id,
            decreases n - i,
        {
            if self.users[i].id == id {
                let mut updated = self.users[i].duplicate();
                updated.status = status;
                self.users.set(i, updated);
                proof {
                    assert(spec_contains_id(us0, id));
                    let k = spec_idx_of_id(us0, id);
                    assert(0 <= k < us0.len() && us0[k].id == id);
                    assert(k == i as int);
                }
                return true;
            }
            i += 1;
        }
        false
    }

    /// Replaces the stored credential hash of the record with this id;
    /// reports whether the record exists.
    pub fn update_password(&mut self, id: i64, password_hash: String) -> (r: bool)
        requires
            old(self).wf(),
        ensures
            final(self).wf(),
            final(self).next_id == old(self).next_id,
            r == spec_contains_id(old(self).users@, id),
            !spec_contains_id(old(self).users@, id) ==> final(self).users@ == old(self).users@,
            spec_contains_id(old(self).users@, id) ==> ({
                let i = spec_idx_of_id(old(self).users@, id);
                final(self).users@ == old(self).users@.update(
                    i,
                    (User { password: Some(password_hash), ..old(self).users@[i] }),
                )
            }),
    {
        let ghost us0 = self.users@;
        let n = self.users.len();
        let mut i: usize = 0;
        while i < n
            invariant
                self.wf(),
                us0 == old(self).users@,
                self.users@ == old(self).users@,
                self.next_id == old(self).next_id,
                n == self.users@.len(),
                0 <= i <= n,
                forall|j: int| 0 <= j < i ==> (#[trigger] self.users@[j]).id != id,
            decreases n - i,
        {
            if self.users[i].id == id {
                let mut updated = self.users[i].duplicate();
                updated.password = Some(password_hash);
                self.users.set(i, updated);
                proof {
                    assert(spec_contains_id(us0, id));
                    let k = spec_idx_of_id(us0, id);
                    assert(0 <= k < us0.len() && us0[k].id == id);
                    assert(k == i as int);
                }
                return true;
            }
            i += 1;
        }
        false
    }

    /// One page of the records whose column text holds `value` as a
    /// case-insensitive substring, in store order and redacted to their
    /// public view, together with the total number of matches.
    pub fn search(&self, col: &UserColumn, value: &str, offset: i64, limit: i64) -> (r: (
        Vec<User>,
        u64,
    ))
        requires
            self.wf(),
            0 <= offset <= 0x100000000000000,
            0 < limit <= 0x100000000000000,
        ensures
            ({
                let all = spec_search_results(self.users@, *col, value@);
                let start = vstd::math::min(offset as int, all.len() as int);
                let end = vstd::math::min(offset as int + limit as int, all.len() as int);
                r.1 == all.len() && r.0@ == all.subrange(start, end)
            }),
    {
        let n = self.users.len();
        let mut all: Vec<User> = Vec::new();
        let mut i: usize = 0;
        while i < n
            invariant
                self.wf(),
                n == self.users@.len(),
                0 <= i <= n,
                all@ == spec_search_results(self.users@.take(i as int), *col, value@),
                all@.len() <= i,
            decreases n - i,
        {
            let u = &self.users[i];
            let text = Self::column_text(u, col);
            proof {
                assert(self.users@.take(i + 1).drop_last() =~= self.users@.take(i as int));
                assert(self.users@.take(i + 1).last() == self.users@[i as int]);
            }
            if str_contains_ci(text.as_str(), value) {
                all.push(u.public_view());
            }
            i += 1;
        }
        proof {
            assert(self.users@.take(n as int) =~= self.users@);
        }
        let total = all.len();
        let start: usize = if offset as u64 >= total as u64 {
            total
        } else {
            offset as usize
        };
        let end_i64: i64 = offset + limit;
        let end: usize = if end_i64 as u64 >= total as u64 {
            total
        } else {
            end_i64 as usize
        };
        proof {
            let all_len = spec_search_results(self.users@, *col, value@).len() as int;
            assert(all_len == total as int);
            assert(start as int == vstd::math::min(offset as int, all_len));
            assert(end as int == vstd::math::min(offset as int + limit as int, all_len));
            assert(start <= end);
        }
        let mut page: Vec<User> = Vec::new();
        proof {
            assert(Seq::<User>::empty() =~= all@.subrange(start as int, start as int));
        }
        let mut j: usize = start;
        while j < end
            invariant
                start <= j <= end <= all@.len(),
                page@ == all@.subrange(start as int, j as int),
            decreases end - j,
        {
            page.push(all[j].duplicate());
            proof {
                assert(all@.subrange(start as int, j + 1).drop_last() =~= all@.subrange(
                    start as int,
                    j as int,
                ));
            }
            j += 1;
        }
        (page, total as u64)
    }
}

/// Re-submitting a record's own current username or email is never a
/// duplicate: the update path's probe excludes the record itself, and
/// under the store invariant no other record holds the same value — so
/// an update that carries the row's own value back cannot conflict.
pub proof fn lemma_own_value_is_no_duplicate(s: UserStore, i: int, col: UserColumn)
    requires
        s.wf(),
        0 <= i < s.users@.len(),
        col is Username || col is Email,
    ensures
        !spec_other_has_column(
            s.users@,
            col,
            spec_column_text(s.users@[i], col),
            s.users@[i].id,
        ),
{
    let w = spec_column_text(s.users@[i], col);
    if spec_other_has_column(s.users@, col, w, s.users@[i].id) {
        let j = choose|j: int|
            0 <= j < s.users@.len() && spec_column_text(s.users@[j], col) == w && s.users@[j].id
                != s.users@[i].id;
        assert(j != i);
        match col {
            UserColumn::Username => {
                assert(s.users@[j].username@ == s.users@[i].username@);
            },
            UserColumn::Email => {
                assert(s.users@[j].email@ == s.users@[i].email@);
            },
            UserColumn::Id => {},
        }
        assert(false);
    }
}

/// The record after an update: exactly the supplied fields replaced and
/// the update time stamped; everything else kept.
pub open spec fn spec_apply_update(
    u: User,
    username: Option<String>,
    email: Option<String>,
    permissions: Option<i64>,
    now: u64,
) -> User {
    User {
        username: match username {
            Some(x) => x,
            None => u.username,
        },
        email: match email {
            Some(x) => x,
            None => u.email,
        },
        permissions: match permissions {
            Some(x) => x,
            None => u.permissions,
        },
        updated_at: now,
        ..u
    }
}

} // verus!
