use vstd::prelude::*;

verus! {

/// What the program records for one user.
#[derive(Clone, Copy, Debug, PartialEq, Eq, Structural)]
pub struct User {
    pub user_bump: u8,
    /// Reward points earned so far.
    pub reward_point: u32,
    /// NFTs the user has stacked now.
    pub no_of_stacked_nft: u8,
}

/// A user record as it is first created.
pub open spec fn fresh_user(user_bump: u8) -> User {
    User { user_bump, reward_point: 0, no_of_stacked_nft: 0 }
}

} // verus!
