use vstd::prelude::*;
use crate::error::StackError;
use crate::state::config::{Config, config_spec};

verus! {

/// Decimals of the reward token mint that the configuration creates.
pub const REWARD_MINT_DECIMALS: u8 = 6;

/// Bumps of the addresses derived when the configuration is created.
#[derive(Clone, Copy, Debug, PartialEq, Eq, Structural)]
pub struct InitaizeConfigBumps {
    pub config_pda: u8,
    pub reward_mint: u8,
}

/// The accounts of configuration set-up, as far as the logic reads or writes them.
#[derive(Clone, Copy, Debug, PartialEq, Eq, Structural)]
pub struct InitaizeConfig {
    pub config_pda: Config,
}

impl InitaizeConfig {
    /// Writes the configuration: the two bumps, the minimum freeze period,
    /// the per-user stack limit and the daily reward.
    pub fn init_config(
        &mut self,
        min_freez_period: u32,
        max_stack: u8,
        reward_per_stack: u8,
        bump: InitaizeConfigBumps,
    ) -> (r: Result<(), StackError>)
        ensures
            r is Ok,
            final(self).config_pda == config_spec(
                bump.config_pda,
                bump.reward_mint,
                min_freez_period,
                max_stack,
                reward_per_stack,
            ),
            final(self).config_pda.config_bump == bump.config_pda,
            final(self).config_pda.reward_bump == bump.reward_mint,
            final(self).config_pda.min_freez_period == min_freez_period,
            final(self).config_pda.max_stack == max_stack,
            final(self).config_pda.reward_per_stack == reward_per_stack,
    {
        self.config_pda = Config {
            config_bump: bump.config_pda,
            reward_bump: bump.reward_mint,
            min_freez_period,
            max_stack,
            reward_per_stack,
        };
        Ok(())
    }
}

} // verus!
