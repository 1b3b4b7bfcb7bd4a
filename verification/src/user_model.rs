//! The user record as the document store holds it: identity, credentials,
//! and the ordered set of identifiers of the tasks the user created.

use vstd::prelude::*;

verus! {

/// A stored user record. `password` holds the salted hash of the user's
/// password, never the password itself. `tasks` holds the identifiers of the
/// user's tasks in the order they were appended.
#[derive(Debug)]
pub struct User {
    pub user_id: String,
    pub username: String,
    pub email: String,
    pub password: String,
    pub tasks: Vec<String>,
}

/// The mathematical value of a user record.
#[verifier::ext_equal]
pub ghost struct UserView {
    pub user_id: Seq<char>,
    pub username: Seq<char>,
    pub email: Seq<char>,
    pub password: Seq<char>,
    pub tasks: Seq<Seq<char>>,
}

impl View for User {
    type V = UserView;

    open spec fn view(&self) -> UserView {
        UserView {
            user_id: self.user_id@,
            username: self.username@,
            email: self.email@,
            password: self.password@,
            tasks: self.tasks.deep_view(),
        }
    }
}

} // verus!
