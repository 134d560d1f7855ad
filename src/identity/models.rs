//! User records of the identity tier's credential store.

use vstd::prelude::*;

verus! {

/// A user as the credential store holds it.
pub struct DbUser {
    pub id: i32,
    pub username: String,
    pub passhash: String,
}

/// A user to insert into the credential store.
pub struct InsUser {
    pub username: String,
    pub passhash: String,
}

impl InsUser {
    pub fn new(username: String, passhash: String) -> (r: InsUser)
        ensures
            r.username@ == username@,
            r.passhash@ == passhash@,
    {
        InsUser { username, passhash }
    }
}

} // verus!
