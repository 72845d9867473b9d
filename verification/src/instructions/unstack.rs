use vstd::prelude::*;
use crate::error::StackError;
use crate::state::config::Config;
use crate::state::nft_stack::{NFTStack, NftStackSigner};
use crate::state::pubkey::Pubkey;
use crate::state::user::User;

verus! {

/// Seconds in a day.
pub const SECONDS_PER_DAY: u64 = 86400;

/// Where an unstacking request stands.
#[derive(Clone, Copy, Debug, PartialEq, Eq, Structural)]
pub enum UnstackPhase {
    /// Nothing done yet.
    Ready,
    /// Waiting for the NFT's token account to be thawed.
    Thawing,
    /// Waiting for the delegate approval to be revoked.
    Revoking,
    /// Waiting for the current time.
    ReadingClock,
    /// The NFT is released and the reward is booked.
    Complete,
}

/// What the caller reports back after doing an action.
#[derive(Clone, Copy, Debug, PartialEq, Eq)]
pub enum UnstackEvent {
    /// The request arrives.
    Start,
    /// The thaw succeeded.
    Thawed,
    /// The revocation succeeded.
    Revoked,
    /// The clock was read.
    ClockRead { unix_timestamp: i64 },
}

/// What the caller is to do next.
#[derive(Clone, Copy, Debug, PartialEq, Eq)]
pub enum UnstackAction {
    /// Thaw the user's NFT account, signed with the stack record's seeds.
    Thaw { signer: NftStackSigner },
    /// Revoke the delegate approval on the user's NFT account, with the user
    /// record as authority, signed with the stack record's seeds.
    Revoke { signer: NftStackSigner },
    /// Read the current unix time.
    ReadClock,
    /// The request succeeded; the stack record is closed to the user.
    Complete,
    /// The event does not fit the phase; nothing changed.
    Ignore,
}

/// The accounts of an unstacking request, as far as the logic reads or writes
/// them, and the phase the request is in.
#[derive(Clone, Copy, Debug, PartialEq, Eq)]
pub struct Unstack {
    pub user: Pubkey,
    pub nft_mint: Pubkey,
    pub config_account: Config,
    pub user_account: User,
    /// Address of the user record.
    pub user_account_key: Pubkey,
    pub stack_account: NFTStack,
    pub phase: UnstackPhase,
}

/// Whole days from `stack_time_at` to `current_time`, both read as unsigned
/// 64-bit seconds.
pub open spec fn elapsed_days(stack_time_at: i64, current_time: i64) -> int {
    ((current_time as u64) - (stack_time_at as u64)) / (SECONDS_PER_DAY as int)
}

/// Points a stack earns: the whole days held times the daily reward, when the
/// day count (read as 32 bits) has reached the minimum freeze period; else none.
pub open spec fn reward_points(config: Config, stack_time_at: i64, current_time: i64) -> int {
    let days = elapsed_days(stack_time_at, current_time);
    if config.min_freez_period <= (days as u32) {
        days * config.reward_per_stack
    } else {
        0
    }
}

/// The reward can be booked without an arithmetic fault: the clock is not
/// behind the stack time (as unsigned seconds) and the user's points, plus the
/// new points read as 32 bits, stay within 32 bits.
pub open spec fn reward_defined(config: Config, user: User, stack: NFTStack, current_time: i64) -> bool {
    &&& (current_time as u64) >= (stack.stack_time_at as u64)
    &&& user.reward_point + (reward_points(config, stack.stack_time_at, current_time) as u32)
        <= u32::MAX
}

/// The user record after the reward of `stack` at `current_time` is booked.
pub open spec fn rewarded(config: Config, user: User, stack: NFTStack, current_time: i64) -> User {
    User {
        reward_point: (user.reward_point + (reward_points(config, stack.stack_time_at, current_time)
            as u32)) as u32,
        ..user
    }
}

/// The signer of the thaw and the revocation.
pub open spec fn unstack_signer(pre: Unstack) -> NftStackSigner {
    NftStackSigner {
        user_account: pre.user_account_key,
        nft_mint: pre.nft_mint,
        bump: pre.stack_account.nft_stack_bump,
    }
}

/// The step can be taken without an arithmetic fault.
pub open spec fn unstack_step_defined(pre: Unstack, event: UnstackEvent) -> bool {
    match (pre.phase, event) {
        (UnstackPhase::Revoking, UnstackEvent::Revoked) => pre.user_account.no_of_stacked_nft > 0,
        (UnstackPhase::ReadingClock, UnstackEvent::ClockRead { unix_timestamp }) => reward_defined(
            pre.config_account,
            pre.user_account,
            pre.stack_account,
            unix_timestamp,
        ),
        _ => true,
    }
}

/// One step of an unstacking request: the state after `event` and the action to do.
pub open spec fn unstack_step(pre: Unstack, event: UnstackEvent) -> (Unstack, UnstackAction) {
    match (pre.phase, event) {
        (UnstackPhase::Ready, UnstackEvent::Start) => (
            Unstack { phase: UnstackPhase::Thawing, ..pre },
            UnstackAction::Thaw { signer: unstack_signer(pre) },
        ),
        (UnstackPhase::Thawing, UnstackEvent::Thawed) => (
            Unstack { phase: UnstackPhase::Revoking, ..pre },
            UnstackAction::Revoke { signer: unstack_signer(pre) },
        ),
        (UnstackPhase::Revoking, UnstackEvent::Revoked) => (
            Unstack {
                user_account: User {
                    no_of_stacked_nft: (pre.user_account.no_of_stacked_nft - 1) as u8,
                    ..pre.user_account
                },
                phase: UnstackPhase::ReadingClock,
                ..pre
            },
            UnstackAction::ReadClock,
        ),
        (UnstackPhase::ReadingClock, UnstackEvent::ClockRead { unix_timestamp }) => (
            Unstack {
                user_account: rewarded(
                    pre.config_account,
                    pre.user_account,
                    pre.stack_account,
                    unix_timestamp,
                ),
                phase: UnstackPhase::Complete,
                ..pre
            },
            UnstackAction::Complete,
        ),
        _ => (pre, UnstackAction::Ignore),
    }
}

/// Whole days counted from 64-bit seconds, times a daily reward, fit in 64 bits.
proof fn lemma_days_times_reward_fit(days: u64, rate: u8)
    requires
        days <= u64::MAX / SECONDS_PER_DAY,
    ensures
        days * rate <= u64::MAX,
{
    assert(days * rate <= u64::MAX) by (nonlinear_arith)
        requires
            days <= 213503982334601,
            rate <= 255,
    ;
}

impl Unstack {
    /// An unstacking request that has not started.
    pub fn new(
        user: Pubkey,
        nft_mint: Pubkey,
        config_account: Config,
        user_account: User,
        user_account_key: Pubkey,
        stack_account: NFTStack,
    ) -> (u: Unstack)
        ensures
            u == (Unstack {
                user,
                nft_mint,
                config_account,
                user_account,
                user_account_key,
                stack_account,
                phase: UnstackPhase::Ready,
            }),
    {
        Unstack {
            user,
            nft_mint,
            config_account,
            user_account,
            user_account_key,
            stack_account,
            phase: UnstackPhase::Ready,
        }
    }

    /// The points the stack earns when released at `current_time`, computed as
    /// the release does it.
    fn points_at(&self, current_time: i64) -> (points: u64)
        requires
            (current_time as u64) >= (self.stack_account.stack_time_at as u64),
        ensures
            points == reward_points(self.config_account, self.stack_account.stack_time_at, current_time),
    {
        let time_elapsed: u64 = ((current_time as u64) - (self.stack_account.stack_time_at as u64))
            / SECONDS_PER_DAY;
        if self.config_account.min_freez_period <= (time_elapsed as u32) {
            proof {
                lemma_days_times_reward_fit(time_elapsed, self.config_account.reward_per_stack);
            }
            time_elapsed * (self.config_account.reward_per_stack as u64)
        } else {
            0
        }
    }

    /// Books the reward of the stack at `current_time`: the whole days since the
    /// stack time, times the daily reward, once the minimum freeze period is
    /// reached; nothing otherwise.
    pub fn reward_user(&mut self, current_time: i64) -> (r: Result<(), StackError>)
        requires
            reward_defined(
                old(self).config_account,
                old(self).user_account,
                old(self).stack_account,
                current_time,
            ),
        ensures
            r is Ok,
            *final(self) == (Unstack {
                user_account: rewarded(
                    old(self).config_account,
                    old(self).user_account,
                    old(self).stack_account,
                    current_time,
                ),
                ..*old(self)
            }),
            final(self).user_account.user_bump == old(self).user_account.user_bump,
            final(self).user_account.no_of_stacked_nft == old(self).user_account.no_of_stacked_nft,
            ({
                let days = ((current_time as u64) - (old(self).stack_account.stack_time_at as u64))
                    / 86400;
                if old(self).config_account.min_freez_period <= (days as u32) {
                    final(self).user_account.reward_point == old(self).user_account.reward_point
                        + ((days * old(self).config_account.reward_per_stack) as u32)
                } else {
                    final(self).user_account.reward_point == old(self).user_account.reward_point
                }
            }),
    {
        let points = self.points_at(current_time);
        self.user_account.reward_point = self.user_account.reward_point + (points as u32);
        Ok(())
    }

    /// Whether `unstack` would meet an arithmetic fault on this event: the
    /// stack count would drop below zero, the clock is behind the stack time,
    /// or the points would pass the 32-bit limit.
    pub fn faults_on(&self, event: UnstackEvent) -> (b: bool)
        ensures
            b == !unstack_step_defined(*self, event),
            self.phase is Revoking && event is Revoked ==> (b <==> self.user_account.no_of_stacked_nft
                == 0),
            self.phase is ReadingClock ==> (event matches UnstackEvent::ClockRead { unix_timestamp }
                ==> (b <==> !((unix_timestamp as u64) >= (self.stack_account.stack_time_at as u64)
                && self.user_account.reward_point + (reward_points(
                self.config_account,
                self.stack_account.stack_time_at,
                unix_timestamp,
            ) as u32) <= u32::MAX))),
            !(self.phase is Revoking && event is Revoked) && !(self.phase is ReadingClock
                && event is ClockRead) ==> !b,
    {
        match (self.phase, event) {
            (UnstackPhase::Revoking, UnstackEvent::Revoked) => self.user_account.no_of_stacked_nft
                == 0,
            (UnstackPhase::ReadingClock, UnstackEvent::ClockRead { unix_timestamp }) => {
                if (unix_timestamp as u64) < (self.stack_account.stack_time_at as u64) {
                    true
                } else {
                    let points = self.points_at(unix_timestamp);
                    self.user_account.reward_point.checked_add(points as u32).is_none()
                }
            },
            _ => false,
        }
    }

    /// Advances the request by one event: the NFT is thawed, the delegate
    /// approval revoked, the user's stack count goes down by one, and once the
    /// time is known the reward is booked.
    pub fn unstack(&mut self, event: UnstackEvent) -> (action: UnstackAction)
        requires
            unstack_step_defined(*old(self), event),
        ensures
            (*final(self), action) == unstack_step(*old(self), event),
            final(self).user == old(self).user,
            final(self).nft_mint == old(self).nft_mint,
            final(self).config_account == old(self).config_account,
            final(self).user_account_key == old(self).user_account_key,
            final(self).stack_account == old(self).stack_account,
            final(self).user_account.user_bump == old(self).user_account.user_bump,
            old(self).phase is Ready && event is Start ==> {
                &&& action == (UnstackAction::Thaw {
                    signer: NftStackSigner {
                        user_account: old(self).user_account_key,
                        nft_mint: old(self).nft_mint,
                        bump: old(self).stack_account.nft_stack_bump,
                    },
                })
                &&& final(self).user_account == old(self).user_account
            },
            old(self).phase is Thawing && event is Thawed ==> {
                &&& action == (UnstackAction::Revoke {
                    signer: NftStackSigner {
                        user_account: old(self).user_account_key,
                        nft_mint: old(self).nft_mint,
                        bump: old(self).stack_account.nft_stack_bump,
                    },
                })
                &&& final(self).user_account == old(self).user_account
            },
            old(self).phase is Revoking && event is Revoked ==> {
                &&& action == UnstackAction::ReadClock
                &&& final(self).user_account.no_of_stacked_nft == old(
                    self,
                ).user_account.no_of_stacked_nft - 1
                &&& final(self).user_account.reward_point == old(self).user_account.reward_point
            },
    {
        match (self.phase, event) {
            (UnstackPhase::Ready, UnstackEvent::Start) => {
                self.phase = UnstackPhase::Thawing;
                UnstackAction::Thaw {
                    signer: NftStackSigner {
                        user_account: self.user_account_key,
                        nft_mint: self.nft_mint,
                        bump: self.stack_account.nft_stack_bump,
                    },
                }
            },
            (UnstackPhase::Thawing, UnstackEvent::Thawed) => {
                self.phase = UnstackPhase::Revoking;
                UnstackAction::Revoke {
                    signer: NftStackSigner {
                        user_account: self.user_account_key,
                        nft_mint: self.nft_mint,
                        bump: self.stack_account.nft_stack_bump,
                    },
                }
            },
            (UnstackPhase::Revoking, UnstackEvent::Revoked) => {
                self.user_account.no_of_stacked_nft = self.user_account.no_of_stacked_nft - 1;
                self.phase = UnstackPhase::ReadingClock;
                UnstackAction::ReadClock
            },
            (UnstackPhase::ReadingClock, UnstackEvent::ClockRead { unix_timestamp }) => {
                let _ = self.reward_user(unix_timestamp);
                self.phase = UnstackPhase::Complete;
                UnstackAction::Complete
            },
            _ => UnstackAction::Ignore,
        }
    }
}

} // verus!
