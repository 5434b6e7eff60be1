//! Account flags.
use vstd::prelude::*;

verus! {

/// Account flags as an operation sets or clears them.
#[derive(Clone, Copy, Debug, PartialEq, Eq, Structural)]
pub struct Flag {
    /// Trust lines are created unauthorized, and the issuer must authorize
    /// each of them.
    pub auth_required: bool,
    /// The issuer may revoke the authorization of a trust line.
    pub auth_revocable: bool,
}

impl Flag {
    /// Creates a flag combination.
    pub fn new(auth_required: bool, auth_revocable: bool) -> (r: Flag)
        ensures
            r == (Flag { auth_required, auth_revocable }),
    {
        Flag { auth_required, auth_revocable }
    }

    /// Whether trust lines need the issuer's authorization.
    pub fn is_auth_required(&self) -> (r: bool)
        ensures
            r == self.auth_required,
    {
        self.auth_required
    }

    /// Whether the issuer may revoke authorization.
    pub fn is_auth_revocable(&self) -> (r: bool)
        ensures
            r == self.auth_revocable,
    {
        self.auth_revocable
    }
}

} // verus!
