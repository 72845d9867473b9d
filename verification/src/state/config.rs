use vstd::prelude::*;

verus! {

/// The program-wide stacking rules.
#[derive(Clone, Copy, Debug, PartialEq, Eq, Structural)]
pub struct Config {
    pub config_bump: u8,
    pub reward_bump: u8,
    /// Whole days a stack must be held before it earns anything.
    pub min_freez_period: u32,
    /// Most NFTs a user may have stacked at one time.
    pub max_stack: u8,
    /// Points earned per whole day of stacking.
    pub reward_per_stack: u8,
}

/// The configuration made from its parts.
pub open spec fn config_spec(
    config_bump: u8,
    reward_bump: u8,
    min_freez_period: u32,
    max_stack: u8,
    reward_per_stack: u8,
) -> Config {
    Config { config_bump, reward_bump, min_freez_period, max_stack, reward_per_stack }
}

} // verus!
