//! Plain records as they come from a database row or from a web service.

use vstd::prelude::*;

verus! {

/// A row of the `users` table.
#[derive(Debug)]
pub struct User {
    id: i64,
    name: String,
    email: String,
}

impl User {
    /// The row's key, as the contracts see it.
    pub closed spec fn id_value(&self) -> i64 {
        self.id
    }

    /// The user's name, as the contracts see it.
    pub closed spec fn name_text(&self) -> Seq<char> {
        self.name@
    }

    /// The user's address, as the contracts see it.
    pub closed spec fn email_text(&self) -> Seq<char> {
        self.email@
    }

    /// A row with the given columns.
    pub fn new(id: i64, name: String, email: String) -> (user: Self)
        ensures
            user.id_value() == id,
            user.name_text() == name@,
            user.email_text() == email@,
    {
        User { id, name, email }
    }

    /// The row's key.
    pub fn id(&self) -> (id: i64)
        ensures
            id == self.id_value(),
    {
        self.id
    }

    /// The user's name.
    pub fn name(&self) -> (name: &str)
        ensures
            name@ == self.name_text(),
    {
        self.name.as_str()
    }

    /// The user's address.
    pub fn email(&self) -> (email: &str)
        ensures
            email@ == self.email_text(),
    {
        self.email.as_str()
    }
}

/// One to-do item as a web service reports it.
#[derive(Debug)]
pub struct ApiResponse {
    /// The owner of the item.
    pub user_id: u32,
    /// The item's number.
    pub id: u32,
    /// What is to be done.
    pub title: String,
    /// Whether it is done.
    pub completed: bool,
}

} // verus!
