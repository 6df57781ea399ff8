use vstd::prelude::*;
use vstd::string::*;

verus! {

/// A filesystem directory to archive, with the user and group that should
/// own it again after a restore.
pub struct Directory {
    pub name: String,
    pub user: Option<String>,
    pub group: Option<String>,
}

/// Relies on nix::unistd::User::from_name: looks an account up in the
/// system's user database and hands back its numeric user and group ids.
/// What comes back depends on the machine, so nothing more is claimed.
#[verifier::external_body]
fn lookup_account_ids(name: &str) -> (r: Option<(u32, u32)>) {
    match nix::unistd::User::from_name(name) {
        Ok(Some(user)) => Some((user.uid.as_raw(), user.gid.as_raw())),
        _ => None,
    }
}

impl Directory {
    pub fn new() -> (r: Directory)
        ensures
            r.name@.len() == 0,
            r.user is None,
            r.group is None,
    {
        Directory { name: String::new(), user: None, group: None }
    }

    /// The numeric id of the configured owning user, when the system knows
    /// that account.
    pub fn get_uid(&self) -> (r: Option<u32>)
        ensures
            self.user is None ==> r is None,
    {
        match &self.user {
            Some(user) => match lookup_account_ids(user.as_str()) {
                Some(ids) => Some(ids.0),
                None => None,
            },
            None => None,
        }
    }

    /// The numeric group id for the configured owning group, looked up the
    /// same way as the owning user.
    pub fn get_gid(&self) -> (r: Option<u32>)
        ensures
            self.group is None ==> r is None,
    {
        match &self.group {
            Some(group) => match lookup_account_ids(group.as_str()) {
                Some(ids) => Some(ids.1),
                None => None,
            },
            None => None,
        }
    }
}

} // verus!
