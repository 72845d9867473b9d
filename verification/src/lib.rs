//! Verified core of an NFT stacking program: users lock ("stack") NFTs that stay
//! in their own wallets, frozen, and earn reward points for every whole day a
//! stack was held beyond the configured freeze period; points are later minted
//! as reward tokens.
//!
//! The runtime work of the program (token approvals, freezes, thaws, mints,
//! reading the clock) is done by the caller; the library decides, step by
//! step, what is done next and how the account data changes.
use vstd::prelude::*;

pub mod error;
pub mod instructions;
pub mod laws;
pub mod state;

pub use error::StackError;

pub use instructions::initialize_config::{InitaizeConfig, InitaizeConfigBumps, REWARD_MINT_DECIMALS};
pub use instructions::initialize_user::{InitUser, InitUserBumps};
pub use instructions::claim::{Claim, MintReward};
pub use instructions::unstack::{Unstack, UnstackAction, UnstackEvent, UnstackPhase};
pub use instructions::stack::{Stack, StackAction, StackBumps, StackEvent, StackPhase};

pub use state::config::Config;
pub use state::nft_stack::{NFTStack, NftStackSigner};
pub use state::pubkey::Pubkey;
pub use state::user::User;

verus! {

/// Sets up the program-wide configuration: the minimum freeze period (in days)
/// before a stack earns rewards, the most NFTs one user may have stacked at a
/// time, and the reward points per day of stacking.
pub fn initialize(
    accounts: &mut InitaizeConfig,
    bumps: InitaizeConfigBumps,
    min_freez_period: u32,
    max_stack: u8,
    reward_per_stack: u8,
) -> (r: Result<(), StackError>)
    ensures
        r is Ok,
        final(accounts).config_pda == state::config::config_spec(
            bumps.config_pda,
            bumps.reward_mint,
            min_freez_period,
            max_stack,
            reward_per_stack,
        ),
{
    accounts.init_config(min_freez_period, max_stack, reward_per_stack, bumps)
}

/// Creates the per-user record: no points and no stacked NFTs.
pub fn initialize_user(accounts: &mut InitUser, bumps: InitUserBumps) -> (r: Result<
    (),
    StackError,
>)
    ensures
        r is Ok,
        final(accounts).user_pda == state::user::fresh_user(bumps.user_pda),
{
    accounts.save_user_data(bumps)
}

} // verus!
