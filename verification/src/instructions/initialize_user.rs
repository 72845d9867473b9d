use vstd::prelude::*;
use crate::error::StackError;
use crate::state::user::{User, fresh_user};

verus! {

/// Bump of the address derived when a user record is created.
#[derive(Clone, Copy, Debug, PartialEq, Eq, Structural)]
pub struct InitUserBumps {
    pub user_pda: u8,
}

/// The accounts of user set-up, as far as the logic reads or writes them.
#[derive(Clone, Copy, Debug, PartialEq, Eq, Structural)]
pub struct InitUser {
    pub user_pda: User,
}

impl InitUser {
    /// Writes a fresh user record: the bump, no points, nothing stacked.
    pub fn save_user_data(&mut self, bump: InitUserBumps) -> (r: Result<(), StackError>)
        ensures
            r is Ok,
            final(self).user_pda == fresh_user(bump.user_pda),
            final(self).user_pda.user_bump == bump.user_pda,
            final(self).user_pda.reward_point == 0,
            final(self).user_pda.no_of_stacked_nft == 0,
    {
        self.user_pda = User { user_bump: bump.user_pda, reward_point: 0, no_of_stacked_nft: 0 };
        Ok(())
    }
}

} // verus!
