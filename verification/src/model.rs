use vstd::prelude::*;

verus! {

/// A user record: the natural key `username`, the unique `email`, and a free-form `bio`.
#[derive(Debug, PartialEq, Eq)]
pub struct User {
    pub username: String,
    pub email: String,
    pub bio: String,
}

/// The mathematical value of a [`User`]: its three fields as character sequences.
pub struct UserView {
    pub username: Seq<char>,
    pub email: Seq<char>,
    pub bio: Seq<char>,
}

impl View for User {
    type V = UserView;

    open spec fn view(&self) -> UserView {
        UserView { username: self.username@, email: self.email@, bio: self.bio@ }
    }
}

impl Clone for User {
    fn clone(&self) -> (copy: User)
        ensures
            copy@ == self@,
    {
        User { username: self.username.clone(), email: self.email.clone(), bio: self.bio.clone() }
    }
}

/// A partial update of a user: a field that is `None` keeps the stored value.
#[derive(Debug, PartialEq, Eq)]
pub struct UserUpdate {
    pub email: Option<String>,
    pub bio: Option<String>,
}

/// The mathematical value of a [`UserUpdate`].
pub struct UserUpdateView {
    pub email: Option<Seq<char>>,
    pub bio: Option<Seq<char>>,
}

/// The view of an optional string: the view of the string it holds, if any.
pub open spec fn text_of(value: Option<String>) -> Option<Seq<char>> {
    match value {
        Some(s) => Some(s@),
        None => None,
    }
}

impl View for UserUpdate {
    type V = UserUpdateView;

    open spec fn view(&self) -> UserUpdateView {
        UserUpdateView { email: text_of(self.email), bio: text_of(self.bio) }
    }
}

/// The record that results from applying `change` to `stored`: a supplied
/// field replaces the stored one, an absent field leaves it as it was, and
/// the username never changes.
pub open spec fn patched(stored: UserView, change: UserUpdateView) -> UserView {
    UserView {
        username: stored.username,
        email: match change.email {
            Some(email) => email,
            None => stored.email,
        },
        bio: match change.bio {
            Some(bio) => bio,
            None => stored.bio,
        },
    }
}

impl UserUpdate {
    /// Applies this update to a stored record.
    pub fn apply(&self, stored: &User) -> (fresh: User)
        ensures
            fresh@ == patched(stored@, self@),
    {
        let email = match &self.email {
            Some(email) => email.clone(),
            None => stored.email.clone(),
        };
        let bio = match &self.bio {
            Some(bio) => bio.clone(),
            None => stored.bio.clone(),
        };
        User { username: stored.username.clone(), email, bio }
    }
}

/// The window of a listing as the request gave it: both bounds are optional.
#[derive(Debug, PartialEq, Eq)]
pub struct Pagination {
    pub offset: Option<i32>,
    pub limit: Option<i32>,
}

/// The offset that a listing starts at: the one supplied, or 0.
pub open spec fn effective_offset(offset: Option<i32>) -> i32 {
    match offset {
        Some(n) => n,
        None => 0i32,
    }
}

/// The most records that a listing returns: the limit supplied, or the
/// largest representable one.
pub open spec fn effective_limit(limit: Option<i32>) -> i32 {
    match limit {
        Some(n) => n,
        None => i32::MAX,
    }
}

impl Pagination {
    /// The offset to hand to the store.
    pub fn offset(&self) -> (n: i32)
        ensures
            n == effective_offset(self.offset),
    {
        match self.offset {
            Some(n) => n,
            None => 0,
        }
    }

    /// The limit to hand to the store.
    pub fn limit(&self) -> (n: i32)
        ensures
            n == effective_limit(self.limit),
    {
        match self.limit {
            Some(n) => n,
            None => i32::MAX,
        }
    }
}

} // verus!
