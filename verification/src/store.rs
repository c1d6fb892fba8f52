use crate::error::StorageFailure;
use crate::model::{patched, User, UserUpdate, UserUpdateView, UserView};
use vstd::prelude::*;

verus! {

/// The name of the constraint that keeps usernames unique.
pub open spec fn username_key() -> Seq<char> {
    "user_username_key"@
}

/// The name of the constraint that keeps e-mail addresses unique.
pub open spec fn email_key() -> Seq<char> {
    "user_email_key"@
}

/// Whether some row has the given username.
pub open spec fn has_username(rows: Seq<UserView>, username: Seq<char>) -> bool {
    exists|i: int| 0 <= i < rows.len() && (#[trigger] rows[i]).username == username
}

/// Whether some row has the given e-mail address.
pub open spec fn has_email(rows: Seq<UserView>, email: Seq<char>) -> bool {
    exists|i: int| 0 <= i < rows.len() && (#[trigger] rows[i]).email == email
}

/// Whether a row other than the one at index `except` has the given e-mail address.
pub open spec fn email_held_by_other(rows: Seq<UserView>, email: Seq<char>, except: int) -> bool {
    exists|i: int| 0 <= i < rows.len() && i != except && (#[trigger] rows[i]).email == email
}

/// The invariant of the table: no two rows share a username, and no two
/// rows share an e-mail address.
pub open spec fn well_formed(rows: Seq<UserView>) -> bool {
    forall|i: int, j: int|
        0 <= i < rows.len() && 0 <= j < rows.len() && i != j ==> {
            &&& (#[trigger] rows[i]).username != (#[trigger] rows[j]).username
            &&& rows[i].email != rows[j].email
        }
}

/// The row with the given username, if there is one.
pub open spec fn lookup(rows: Seq<UserView>, username: Seq<char>) -> Option<UserView> {
    if has_username(rows, username) {
        Some(rows[choose|i: int| 0 <= i < rows.len() && (#[trigger] rows[i]).username == username])
    } else {
        None
    }
}

/// The rows of a listing: at most `limit` rows, starting `offset` rows into
/// the table. An offset at or past the end gives no rows.
pub open spec fn page(rows: Seq<UserView>, offset: int, limit: int) -> Seq<UserView>
    recommends
        offset >= 0,
        limit >= 0,
{
    let start = if offset < rows.len() { offset } else { rows.len() as int };
    let end = if offset + limit < rows.len() { offset + limit } else { rows.len() as int };
    rows.subrange(start, end)
}

/// The constraint that inserting `user` would violate, if any. Where both
/// the username and the e-mail address are taken, the username is reported.
pub open spec fn violated_on_insert(rows: Seq<UserView>, user: UserView) -> Option<Seq<char>> {
    if has_username(rows, user.username) {
        Some(username_key())
    } else if has_email(rows, user.email) {
        Some(email_key())
    } else {
        None
    }
}

/// Whether applying `change` to the row named `username` would give it an
/// e-mail address that another row holds.
pub open spec fn update_conflicts(
    rows: Seq<UserView>,
    username: Seq<char>,
    change: UserUpdateView,
) -> bool {
    match change.email {
        Some(email) => exists|i: int, j: int|
            0 <= i < rows.len() && 0 <= j < rows.len() && i != j && (#[trigger] rows[i]).username
                == username && (#[trigger] rows[j]).email == email,
        None => false,
    }
}

/// The table after `change` was applied to the row named `username`: that
/// row is patched, every other row is as it was.
pub open spec fn updated(rows: Seq<UserView>, username: Seq<char>, change: UserUpdateView) -> Seq<
    UserView,
> {
    rows.map_values(
        |row: UserView| if row.username == username { patched(row, change) } else { row },
    )
}

/// The views of a list of users, in order.
pub open spec fn user_views(users: Seq<User>) -> Seq<UserView> {
    users.map_values(|user: User| user@)
}

/// A table of users held in memory, which enforces the two uniqueness
/// constraints as a relational store does. Rows are kept, and listed, in the
/// order of their insertion.
pub struct UserTable {
    rows: Vec<User>,
}

impl View for UserTable {
    type V = Seq<UserView>;

    closed spec fn view(&self) -> Seq<UserView> {
        user_views(self.rows@)
    }
}

impl UserTable {
    /// Whether the table keeps its two uniqueness constraints. Every table
    /// that this module hands out does, and every operation preserves it.
    pub open spec fn wf(&self) -> bool {
        well_formed(self@)
    }

    /// An empty table.
    pub fn new() -> (table: UserTable)
        ensures
            table@ == Seq::<UserView>::empty(),
            table.wf(),
    {
        let table = UserTable { rows: Vec::new() };
        proof {
            assert(table@ =~= Seq::<UserView>::empty());
        }
        table
    }

    /// The number of rows.
    pub fn len(&self) -> (n: usize)
        ensures
            n == self@.len(),
    {
        self.rows.len()
    }

    fn position(&self, username: &String) -> (found: Option<usize>)
        ensures
            match found {
                Some(i) => i < self.rows.len() && self@[i as int].username == username@,
                None => !has_username(self@, username@),
            },
    {
        let mut i: usize = 0;
        while i < self.rows.len()
            invariant
                i <= self.rows.len(),
                forall|k: int| 0 <= k < i ==> (#[trigger] self@[k]).username != username@,
            decreases self.rows.len() - i,
        {
            if self.rows[i].username == *username {
                return Some(i);
            }
            i += 1;
        }
        None
    }

    fn email_taken(&self, email: &String, except: usize) -> (taken: bool)
        ensures
            taken == email_held_by_other(self@, email@, except as int),
    {
        let mut i: usize = 0;
        while i < self.rows.len()
            invariant
                i <= self.rows.len(),
                forall|k: int|
                    0 <= k < i && k != except ==> (#[trigger] self@[k]).email != email@,
            decreases self.rows.len() - i,
        {
            if i != except && self.rows[i].email == *email {
                assert(self@[i as int].email == email@);
                return true;
            }
            i += 1;
        }
        false
    }

    /// Point lookup by username: the row with that username, if there is one.
    pub fn fetch_optional(&self, username: &String) -> (row: Option<User>)
        requires
            self.wf(),
        ensures
            match row {
                Some(user) => lookup(self@, username@) == Some(user@),
                None => lookup(self@, username@) is None,
            },
    {
        match self.position(username) {
            Some(i) => Some(self.rows[i].clone()),
            None => None,
        }
    }

    /// Bounded scan: at most `limit` rows, starting `offset` rows into the
    /// table. A negative bound is rejected, as a relational store rejects it;
    /// an offset past the end is not.
    pub fn fetch_page(&self, offset: i32, limit: i32) -> (outcome: Result<Vec<User>, StorageFailure>)
        ensures
            match outcome {
                Ok(users) => offset >= 0 && limit >= 0 && user_views(users@) == page(
                    self@,
                    offset as int,
                    limit as int,
                ),
                Err(failure) => (offset < 0 || limit < 0) && failure@.constraint is None,
            },
    {
        if offset < 0 || limit < 0 {
            return Err(
                StorageFailure {
                    constraint: None,
                    detail: "OFFSET and LIMIT must not be negative".to_owned(),
                },
            );
        }
        let n = self.rows.len();
        let start: usize = if (offset as usize) < n { offset as usize } else { n };
        let room: usize = n - start;
        let end: usize = if (limit as usize) < room { start + limit as usize } else { n };
        let mut users: Vec<User> = Vec::new();
        let mut i: usize = start;
        assert(user_views(users@) =~= self@.subrange(start as int, i as int));
        while i < end
            invariant
                start <= i <= end <= n,
                n == self.rows.len(),
                users@.len() == i - start,
                user_views(users@) == self@.subrange(start as int, i as int),
            decreases end - i,
        {
            let ghost before = users@;
            users.push(self.rows[i].clone());
            i += 1;
            assert forall|k: int| 0 <= k < i - start implies user_views(users@)[k] == self@[start
                + k] by {
                if k < i - start - 1 {
                    assert(user_views(before)[k] == self@.subrange(start as int, i - 1)[k]);
                }
            }
            assert(user_views(users@) =~= self@.subrange(start as int, i as int));
        }
        Ok(users)
    }

    /// Inserts a row. The insert is refused, and the table left as it was,
    /// when the username or the e-mail address is taken; the failure names
    /// the constraint.
    pub fn insert(&mut self, user: User) -> (outcome: Result<(), StorageFailure>)
        requires
            old(self).wf(),
        ensures
            final(self).wf(),
            match outcome {
                Ok(()) => violated_on_insert(old(self)@, user@) is None && final(self)@ == old(
                    self,
                )@.push(user@),
                Err(failure) => failure@.constraint is Some && failure@.constraint
                    == violated_on_insert(old(self)@, user@) && final(self)@ == old(self)@,
            },
    {
        if self.position(&user.username).is_some() {
            return Err(
                StorageFailure {
                    constraint: Some("user_username_key".to_owned()),
                    detail: "duplicate key value violates unique constraint".to_owned(),
                },
            );
        }
        let n = self.rows.len();
        if self.email_taken(&user.email, n) {
            return Err(
                StorageFailure {
                    constraint: Some("user_email_key".to_owned()),
                    detail: "duplicate key value violates unique constraint".to_owned(),
                },
            );
        }
        self.rows.push(user);
        proof {
            assert(self@ =~= old(self)@.push(user@));
        }
        Ok(())
    }

    /// Applies `change` to the row named `username`. Where no row has that
    /// name nothing changes, and that is no failure. The update is refused,
    /// and the table left as it was, when it would give the row an e-mail
    /// address that another row holds.
    pub fn update(&mut self, username: &String, change: &UserUpdate) -> (outcome: Result<
        (),
        StorageFailure,
    >)
        requires
            old(self).wf(),
        ensures
            final(self).wf(),
            match outcome {
                Ok(()) => !update_conflicts(old(self)@, username@, change@) && final(self)@
                    == updated(old(self)@, username@, change@),
                Err(failure) => update_conflicts(old(self)@, username@, change@)
                    && failure@.constraint == Some(email_key()) && final(self)@ == old(self)@,
            },
    {
        match self.position(username) {
            None => {
                proof {
                    assert(self@ =~= updated(self@, username@, change@));
                }
                Ok(())
            },
            Some(i) => {
                let taken = match &change.email {
                    Some(email) => self.email_taken(email, i),
                    None => false,
                };
                if taken {
                    return Err(
                        StorageFailure {
                            constraint: Some("user_email_key".to_owned()),
                            detail: "duplicate key value violates unique constraint".to_owned(),
                        },
                    );
                }
                let fresh = change.apply(&self.rows[i]);
                self.rows.set(i, fresh);
                proof {
                    assert(self@ =~= updated(old(self)@, username@, change@));
                }
                Ok(())
            },
        }
    }
}

} // verus!
