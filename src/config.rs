use vstd::prelude::*;

verus! {

/// The credentials the portal is used with: organisation, user and password.
pub struct Config {
    pub org: String,
    pub username: String,
    pub password: String,
}

impl Config {
    /// Credentials from their three parts.
    pub fn new(org: String, username: String, password: String) -> (r: Config)
        ensures
            r.org@ == org@,
            r.username@ == username@,
            r.password@ == password@,
    {
        Config { org: org, username: username, password: password }
    }

    /// A copy of these credentials.
    pub fn duplicate(&self) -> (r: Config)
        ensures
            r.org@ == self.org@,
            r.username@ == self.username@,
            r.password@ == self.password@,
    {
        Config {
            org: self.org.clone(),
            username: self.username.clone(),
            password: self.password.clone(),
        }
    }
}

} // verus!
