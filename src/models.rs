use vstd::prelude::*;

verus! {

/// A user as the `users` relation stores it.
#[derive(Debug, Clone)]
pub struct User {
    /// Opaque identifier
    pub id: i64,
    /// Unique login name
    pub username: String,
    /// Stored password hash (PHC string)
    pub password: String,
}

impl User {
    /// Builds a user record from its three columns.
    pub fn new(id: i64, username: String, password: String) -> (r: User)
        ensures
            r.id == id,
            r.username@ == username@,
            r.password@ == password@,
    {
        User { id, username, password }
    }
}

} // verus!
