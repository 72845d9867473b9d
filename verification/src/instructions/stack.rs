use vstd::prelude::*;
use crate::error::StackError;
use crate::state::config::Config;
use crate::state::nft_stack::{NFTStack, NftStackSigner};
use crate::state::pubkey::Pubkey;
use crate::state::user::User;

verus! {

/// Bump of the stack record's derived address.
#[derive(Clone, Copy, Debug, PartialEq, Eq, Structural)]
pub struct StackBumps {
    pub stack_account: u8,
}

/// Where a stacking request stands.
#[derive(Clone, Copy, Debug, PartialEq, Eq, Structural)]
pub enum StackPhase {
    /// Nothing done yet.
    Ready,
    /// Waiting for the program to be approved as delegate of the NFT.
    Approving,
    /// Waiting for the NFT's token account to be frozen.
    Freezing,
    /// Waiting for the current time.
    ReadingClock,
    /// The stack is recorded.
    Complete,
    /// The request was refused.
    Rejected,
}

/// What the caller reports back after doing an action.
#[derive(Clone, Copy, Debug, PartialEq, Eq)]
pub enum StackEvent {
    /// The request arrives.
    Start,
    /// The delegate approval succeeded.
    Approved,
    /// The freeze succeeded.
    Frozen,
    /// The clock was read.
    ClockRead { unix_timestamp: i64 },
}

/// What the caller is to do next.
#[derive(Clone, Copy, Debug, PartialEq, Eq)]
pub enum StackAction {
    /// Fail the request with this error.
    Reject { error: StackError },
    /// Approve the stack record as delegate of `amount` tokens of the user's NFT account.
    Approve { amount: u64 },
    /// Freeze the user's NFT account, signed with the stack record's seeds.
    Freeze { signer: NftStackSigner },
    /// Read the current unix time.
    ReadClock,
    /// The request succeeded.
    Complete,
    /// The event does not fit the phase; nothing changed.
    Ignore,
}

/// The accounts of a stacking request, as far as the logic reads or writes
/// them, and the phase the request is in.
#[derive(Clone, Copy, Debug, PartialEq, Eq)]
pub struct Stack {
    pub user: Pubkey,
    pub user_nft_mint: Pubkey,
    pub config_account: Config,
    pub user_account: User,
    /// Address of the user record.
    pub user_account_key: Pubkey,
    pub stack_account: NFTStack,
    pub phase: StackPhase,
}

/// The record written for a stacked NFT.
pub open spec fn stack_record(pre: Stack, bump: StackBumps, unix_timestamp: i64) -> NFTStack {
    NFTStack {
        nft_mint: pre.user_nft_mint,
        owner: pre.user,
        stack_time_at: unix_timestamp,
        nft_stack_bump: bump.stack_account,
    }
}

/// The signer of the freeze: the stack record's seeds, with the bump the stack
/// record holds when the freeze is made.
pub open spec fn stack_signer(pre: Stack) -> NftStackSigner {
    NftStackSigner {
        user_account: pre.user_account_key,
        nft_mint: pre.user_nft_mint,
        bump: pre.stack_account.nft_stack_bump,
    }
}

/// One step of a stacking request: the state after `event` and the action to do.
pub open spec fn stack_step(pre: Stack, bump: StackBumps, event: StackEvent) -> (Stack, StackAction) {
    match (pre.phase, event) {
        (StackPhase::Ready, StackEvent::Start) => {
            if pre.user_account.no_of_stacked_nft < pre.config_account.max_stack {
                (Stack { phase: StackPhase::Approving, ..pre }, StackAction::Approve { amount: 1 })
            } else {
                (
                    Stack { phase: StackPhase::Rejected, ..pre },
                    StackAction::Reject { error: StackError::MaxStackReach },
                )
            }
        },
        (StackPhase::Approving, StackEvent::Approved) => (
            Stack { phase: StackPhase::Freezing, ..pre },
            StackAction::Freeze { signer: stack_signer(pre) },
        ),
        (StackPhase::Freezing, StackEvent::Frozen) => (
            Stack { phase: StackPhase::ReadingClock, ..pre },
            StackAction::ReadClock,
        ),
        (StackPhase::ReadingClock, StackEvent::ClockRead { unix_timestamp }) => (
            Stack {
                stack_account: stack_record(pre, bump, unix_timestamp),
                user_account: User {
                    no_of_stacked_nft: (pre.user_account.no_of_stacked_nft + 1) as u8,
                    ..pre.user_account
                },
                phase: StackPhase::Complete,
                ..pre
            },
            StackAction::Complete,
        ),
        _ => (pre, StackAction::Ignore),
    }
}

impl Stack {
    /// Well-formed: while the request is under way past the limit check, the
    /// user is below the stack limit.
    pub open spec fn wf(&self) -> bool {
        (self.phase is Approving || self.phase is Freezing || self.phase is ReadingClock)
            ==> self.user_account.no_of_stacked_nft < self.config_account.max_stack
    }

    /// A stacking request that has not started.
    pub fn new(
        user: Pubkey,
        user_nft_mint: Pubkey,
        config_account: Config,
        user_account: User,
        user_account_key: Pubkey,
        stack_account: NFTStack,
    ) -> (s: Stack)
        ensures
            s == (Stack {
                user,
                user_nft_mint,
                config_account,
                user_account,
                user_account_key,
                stack_account,
                phase: StackPhase::Ready,
            }),
            s.wf(),
    {
        Stack {
            user,
            user_nft_mint,
            config_account,
            user_account,
            user_account_key,
            stack_account,
            phase: StackPhase::Ready,
        }
    }

    /// Advances the request by one event. At the start the request is refused
    /// with `MaxStackReach` unless the user is below the stack limit; then the
    /// NFT is approved and frozen in the user's wallet, and once the time is
    /// known the stack record is written and the user's count goes up by one.
    pub fn stack(&mut self, bump: StackBumps, event: StackEvent) -> (action: StackAction)
        requires
            old(self).wf(),
        ensures
            (*final(self), action) == stack_step(*old(self), bump, event),
            final(self).wf(),
            final(self).user == old(self).user,
            final(self).user_nft_mint == old(self).user_nft_mint,
            final(self).config_account == old(self).config_account,
            final(self).user_account_key == old(self).user_account_key,
            final(self).user_account.user_bump == old(self).user_account.user_bump,
            final(self).user_account.reward_point == old(self).user_account.reward_point,
            old(self).phase is Ready && event is Start ==> {
                &&& final(self).user_account == old(self).user_account
                &&& final(self).stack_account == old(self).stack_account
                &&& if old(self).user_account.no_of_stacked_nft < old(self).config_account.max_stack {
                    action == (StackAction::Approve { amount: 1 }) && final(self).phase is Approving
                } else {
                    action == (StackAction::Reject { error: StackError::MaxStackReach })
                        && final(self).phase is Rejected
                }
            },
            old(self).phase is Approving && event is Approved ==> {
                &&& action == (StackAction::Freeze {
                    signer: NftStackSigner {
                        user_account: old(self).user_account_key,
                        nft_mint: old(self).user_nft_mint,
                        bump: old(self).stack_account.nft_stack_bump,
                    },
                })
                &&& final(self).user_account == old(self).user_account
                &&& final(self).stack_account == old(self).stack_account
            },
            old(self).phase is ReadingClock ==> (event matches StackEvent::ClockRead {
                unix_timestamp,
            } ==> {
                &&& action == StackAction::Complete
                &&& final(self).phase is Complete
                &&& final(self).stack_account.nft_mint == old(self).user_nft_mint
                &&& final(self).stack_account.owner == old(self).user
                &&& final(self).stack_account.stack_time_at == unix_timestamp
                &&& final(self).stack_account.nft_stack_bump == bump.stack_account
                &&& final(self).user_account.no_of_stacked_nft == old(
                    self,
                ).user_account.no_of_stacked_nft + 1
            }),
    {
        match (self.phase, event) {
            (StackPhase::Ready, StackEvent::Start) => {
                if self.user_account.no_of_stacked_nft < self.config_account.max_stack {
                    self.phase = StackPhase::Approving;
                    StackAction::Approve { amount: 1 }
                } else {
                    self.phase = StackPhase::Rejected;
                    StackAction::Reject { error: StackError::MaxStackReach }
                }
            },
            (StackPhase::Approving, StackEvent::Approved) => {
                self.phase = StackPhase::Freezing;
                StackAction::Freeze {
                    signer: NftStackSigner {
                        user_account: self.user_account_key,
                        nft_mint: self.user_nft_mint,
                        bump: self.stack_account.nft_stack_bump,
                    },
                }
            },
            (StackPhase::Freezing, StackEvent::Frozen) => {
                self.phase = StackPhase::ReadingClock;
                StackAction::ReadClock
            },
            (StackPhase::ReadingClock, StackEvent::ClockRead { unix_timestamp }) => {
                self.stack_account = NFTStack {
                    nft_mint: self.user_nft_mint,
                    owner: self.user,
                    stack_time_at: unix_timestamp,
                    nft_stack_bump: bump.stack_account,
                };
                self.user_account.no_of_stacked_nft = self.user_account.no_of_stacked_nft + 1;
                self.phase = StackPhase::Complete;
                StackAction::Complete
            },
            _ => StackAction::Ignore,
        }
    }
}

} // verus!
