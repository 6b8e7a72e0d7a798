//! The demo GraphQL schema: a user query and sign-up and login mutations.
use vstd::prelude::*;

verus! {

/// A user of the demo schema.
#[derive(Debug)]
pub struct DemoUser {
    pub id: i32,
    pub name: String,
}

/// Queries of the demo schema.
pub struct QueryDemo;

impl QueryDemo {
    /// The user named `username`: always found, with id 1.
    pub fn user(&self, username: String) -> (u: Option<DemoUser>)
        ensures
            u matches Some(user) && user.id == 1 && user.name == username,
    {
        Some(DemoUser { id: 1, name: username })
    }
}

/// Mutations of the demo schema.
pub struct MutationDemo;

impl MutationDemo {
    /// Signs a user up; every sign-up succeeds.
    pub fn signup(&self, username: String, password: String) -> (ok: bool)
        ensures
            ok,
    {
        true
    }

    /// Logs a user in and returns the session token, the fixed text `token`.
    pub fn login(&self, username: String, password: String) -> (token: String)
        ensures
            token@ == "token"@,
    {
        String::from_str("token")
    }
}

} // verus!
