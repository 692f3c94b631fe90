use vstd::prelude::*;

verus! {

/// The session of a signed-in user, as the cache keeps it.
#[derive(Clone, Debug)]
pub struct UserContext {
    pub account: String,
    pub name: String,
    pub organize: u64,
    pub ip: String,
    pub city: String,
    /// How long the session lasts, in seconds.
    pub leeway: u64,
}

} // verus!
