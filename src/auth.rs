use vstd::prelude::*;

verus! {

/// Authentication token, valid at the service for about an hour.
#[derive(Debug, Clone)]
pub struct AuthToken {
    pub token: String,
}

/// Session key; it does not expire until the user revokes it.
#[derive(Debug, Clone)]
pub struct SessionKey {
    pub key: String,
    pub name: String,
}

} // verus!
