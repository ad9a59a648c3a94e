use vstd::prelude::*;

verus! {

/// What the identity service answers for a valid auth token.
#[derive(Clone, Debug)]
pub struct UserAuth {
    pub auth: String,
    pub steam_id: u64,
    pub user: User,
}

/// A player's public profile.
#[derive(Clone, Debug)]
pub struct User {
    pub name: String,
    pub avatar_hash: String,
}

} // verus!
