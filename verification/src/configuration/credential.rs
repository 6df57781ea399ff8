use vstd::prelude::*;
use vstd::string::*;

verus! {

/// A username and password for one database server.
pub struct Credential {
    pub username: String,
    pub password: String,
}

impl Credential {
    pub fn new() -> (r: Credential)
        ensures
            r.username@.len() == 0,
            r.password@.len() == 0,
    {
        Credential { username: String::new(), password: String::new() }
    }
}

} // verus!
