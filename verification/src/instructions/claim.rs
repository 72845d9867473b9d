use vstd::prelude::*;
use crate::state::config::Config;
use crate::state::user::User;

verus! {

/// Ten to the power `n`.
pub open spec fn pow10(n: nat) -> nat
    decreases n,
{
    if n == 0 {
        1
    } else {
        10 * pow10((n - 1) as nat)
    }
}

/// Powers of ten up to the nineteenth fit in 64 bits.
proof fn lemma_pow10_bounded(n: nat)
    requires
        n <= 19,
    ensures
        pow10(n) <= 10_000_000_000_000_000_000,
    decreases 19 - n,
{
    if n < 19 {
        lemma_pow10_bounded(n + 1);
    } else {
        reveal_with_fuel(pow10, 20);
    }
}

/// `10` to the power `exp`, as `u64`.
fn ten_pow(exp: u32) -> (r: u64)
    requires
        exp <= 19,
    ensures
        r == pow10(exp as nat),
{
    let mut r: u64 = 1;
    let mut i: u32 = 0;
    while i < exp
        invariant
            i <= exp <= 19,
            r == pow10(i as nat),
        decreases exp - i,
    {
        proof {
            lemma_pow10_bounded((i + 1) as nat);
        }
        r = r * 10;
        i = i + 1;
    }
    r
}

/// A mint of reward tokens to the user, signed by the configuration
/// (seeds `[CONFIG, [config_bump]]`).
#[derive(Clone, Copy, Debug, PartialEq, Eq, Structural)]
pub struct MintReward {
    /// Base units of the reward token to mint.
    pub amount: u64,
    pub config_bump: u8,
}

/// The accounts of a claim, as far as the logic reads them.
#[derive(Clone, Copy, Debug, PartialEq, Eq, Structural)]
pub struct Claim {
    pub config_account: Config,
    pub user_account: User,
    /// Decimals of the reward token mint.
    pub reward_mint_decimals: u8,
}

/// The base units minted for `reward_point` whole tokens of a mint with
/// `decimals` decimals.
pub open spec fn claim_amount(reward_point: u32, decimals: u8) -> int {
    reward_point * pow10(decimals as nat)
}

/// The mint fits in 64 bits: at most 19 decimals, and the amount within `u64`.
pub open spec fn claim_defined(claim: Claim) -> bool {
    &&& claim.reward_mint_decimals <= 19
    &&& claim_amount(claim.user_account.reward_point, claim.reward_mint_decimals) <= u64::MAX
}

impl Claim {
    /// Whether the claim's amount meets an arithmetic fault.
    pub fn faults(&self) -> (b: bool)
        ensures
            b == !claim_defined(*self),
    {
        if self.reward_mint_decimals > 19 {
            return true;
        }
        let unit = ten_pow(self.reward_mint_decimals as u32);
        (self.user_account.reward_point as u64).checked_mul(unit).is_none()
    }

    /// The mint that pays out the user's reward points, each point a whole
    /// reward token. The points are not reset: the accounts are unchanged.
    pub fn claim_reward(&mut self) -> (m: MintReward)
        requires
            claim_defined(*old(self)),
        ensures
            m.amount == claim_amount(
                old(self).user_account.reward_point,
                old(self).reward_mint_decimals,
            ),
            m.config_bump == old(self).config_account.config_bump,
            *final(self) == *old(self),
    {
        let unit = ten_pow(self.reward_mint_decimals as u32);
        let amount = (self.user_account.reward_point as u64) * unit;
        MintReward { amount, config_bump: self.config_account.config_bump }
    }
}

} // verus!
