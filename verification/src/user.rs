//! Users: a numeric id and a display name.

use vstd::prelude::*;

verus! {

pub type UserId = i64;

/// The display name of a user who has not chosen one.
pub const DEFAULT_USERNAME: &'static str = "user";

/// The cookie that carries a user's identity token.
pub const USER_COOKIE: &'static str = "_fq_user";

#[derive(Debug)]
pub struct User {
    pub id: UserId,
    pub name: String,
}

/// A user with the name as a character sequence.
pub struct UserView {
    pub id: UserId,
    pub name: Seq<char>,
}

impl View for User {
    type V = UserView;

    open spec fn view(&self) -> UserView {
        UserView { id: self.id, name: self.name@ }
    }
}

impl User {
    /// A newly created user, who carries the default name.
    pub fn with_default_name(id: UserId) -> (r: User)
        ensures
            r@ == (UserView { id, name: DEFAULT_USERNAME@ }),
    {
        User { id, name: DEFAULT_USERNAME.to_owned() }
    }

    /// The same user under another name.
    pub fn renamed(self, name: String) -> (r: User)
        ensures
            r@ == (UserView { id: self.id, name: name@ }),
    {
        User { id: self.id, name }
    }
}

} // verus!
