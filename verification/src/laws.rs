//! Properties of the library that span several steps or several requests.
use vstd::prelude::*;
use crate::error::StackError;
use crate::instructions::claim::{claim_amount, pow10};
use crate::instructions::initialize_config::REWARD_MINT_DECIMALS;
use crate::instructions::stack::{
    Stack,
    StackAction,
    StackBumps,
    StackEvent,
    StackPhase,
    stack_record,
    stack_signer,
    stack_step,
};
use crate::instructions::unstack::{
    Unstack,
    UnstackAction,
    UnstackEvent,
    UnstackPhase,
    elapsed_days,
    reward_defined,
    reward_points,
    rewarded,
    unstack_signer,
    unstack_step,
    unstack_step_defined,
};
use crate::state::config::{Config, config_spec};
use crate::state::nft_stack::{NFTStack, NftStackSigner};
use crate::state::user::{User, fresh_user};

verus! {

/// A stacking request run through all its events, with the clock reading `now`:
/// the final state and the actions asked for, in order.
pub open spec fn stack_run(pre: Stack, bump: StackBumps, now: i64) -> (Stack, Seq<StackAction>) {
    let r1 = stack_step(pre, bump, StackEvent::Start);
    let r2 = stack_step(r1.0, bump, StackEvent::Approved);
    let r3 = stack_step(r2.0, bump, StackEvent::Frozen);
    let r4 = stack_step(r3.0, bump, StackEvent::ClockRead { unix_timestamp: now });
    (r4.0, seq![r1.1, r2.1, r3.1, r4.1])
}

/// An unstacking request run through all its events, with the clock reading
/// `now`: the final state and the actions asked for, in order.
pub open spec fn unstack_run(pre: Unstack, now: i64) -> (Unstack, Seq<UnstackAction>) {
    let r1 = unstack_step(pre, UnstackEvent::Start);
    let r2 = unstack_step(r1.0, UnstackEvent::Thawed);
    let r3 = unstack_step(r2.0, UnstackEvent::Revoked);
    let r4 = unstack_step(r3.0, UnstackEvent::ClockRead { unix_timestamp: now });
    (r4.0, seq![r1.1, r2.1, r3.1, r4.1])
}

/// The unstacking request for the NFT that a finished stacking request recorded.
pub open spec fn unstack_of(s: Stack) -> Unstack {
    Unstack {
        user: s.user,
        nft_mint: s.user_nft_mint,
        config_account: s.config_account,
        user_account: s.user_account,
        user_account_key: s.user_account_key,
        stack_account: s.stack_account,
        phase: UnstackPhase::Ready,
    }
}

/// No step of a stacking request takes a user past the configured stack limit.
pub proof fn lemma_stack_keeps_limit(pre: Stack, bump: StackBumps, event: StackEvent)
    requires
        pre.wf(),
        pre.user_account.no_of_stacked_nft <= pre.config_account.max_stack,
    ensures
        stack_step(pre, bump, event).0.user_account.no_of_stacked_nft
            <= stack_step(pre, bump, event).0.config_account.max_stack,
        stack_step(pre, bump, event).0.config_account == pre.config_account,
{
}

/// No step of an unstacking request raises the user's stack count, and no step
/// lowers the user's reward points.
pub proof fn lemma_unstack_never_raises_count(pre: Unstack, event: UnstackEvent)
    requires
        unstack_step_defined(pre, event),
    ensures
        unstack_step(pre, event).0.user_account.no_of_stacked_nft
            <= pre.user_account.no_of_stacked_nft,
        unstack_step(pre, event).0.user_account.reward_point >= pre.user_account.reward_point,
        unstack_step(pre, event).0.config_account == pre.config_account,
{
}

/// A user at the stack limit is refused with `MaxStackReach`, and nothing is
/// approved, frozen or written.
pub proof fn lemma_refusal_changes_nothing(pre: Stack, bump: StackBumps, now: i64)
    requires
        pre.phase is Ready,
        pre.user_account.no_of_stacked_nft >= pre.config_account.max_stack,
    ensures
        stack_run(pre, bump, now).1 == seq![
            StackAction::Reject { error: StackError::MaxStackReach },
            StackAction::Ignore,
            StackAction::Ignore,
            StackAction::Ignore,
        ],
        stack_run(pre, bump, now).0 == (Stack { phase: StackPhase::Rejected, ..pre }),
{
    assert(stack_run(pre, bump, now).1 =~= seq![
        StackAction::Reject { error: StackError::MaxStackReach },
        StackAction::Ignore,
        StackAction::Ignore,
        StackAction::Ignore,
    ]);
}

/// A user below the stack limit has the NFT approved, then frozen in place
/// (not moved), then recorded with the time read from the clock; the user's
/// stack count goes up by one and nothing else of the user changes.
pub proof fn lemma_stack_run(pre: Stack, bump: StackBumps, now: i64)
    requires
        pre.phase is Ready,
        pre.user_account.no_of_stacked_nft < pre.config_account.max_stack,
    ensures
        stack_run(pre, bump, now).1 == seq![
            StackAction::Approve { amount: 1 },
            StackAction::Freeze { signer: stack_signer(pre) },
            StackAction::ReadClock,
            StackAction::Complete,
        ],
        stack_run(pre, bump, now).0 == (Stack {
            stack_account: stack_record(pre, bump, now),
            user_account: User {
                no_of_stacked_nft: (pre.user_account.no_of_stacked_nft + 1) as u8,
                ..pre.user_account
            },
            phase: StackPhase::Complete,
            ..pre
        }),
{
    assert(stack_run(pre, bump, now).1 =~= seq![
        StackAction::Approve { amount: 1 },
        StackAction::Freeze { signer: stack_signer(pre) },
        StackAction::ReadClock,
        StackAction::Complete,
    ]);
}

/// Unstacking thaws the NFT, revokes the approval, lowers the stack count by
/// one and books the reward for the time the NFT was stacked.
pub proof fn lemma_unstack_run(pre: Unstack, now: i64)
    requires
        pre.phase is Ready,
        pre.user_account.no_of_stacked_nft > 0,
        reward_defined(
            pre.config_account,
            User {
                no_of_stacked_nft: (pre.user_account.no_of_stacked_nft - 1) as u8,
                ..pre.user_account
            },
            pre.stack_account,
            now,
        ),
    ensures
        unstack_run(pre, now).1 == seq![
            UnstackAction::Thaw { signer: unstack_signer(pre) },
            UnstackAction::Revoke { signer: unstack_signer(pre) },
            UnstackAction::ReadClock,
            UnstackAction::Complete,
        ],
        unstack_run(pre, now).0 == (Unstack {
            user_account: rewarded(
                pre.config_account,
                User {
                    no_of_stacked_nft: (pre.user_account.no_of_stacked_nft - 1) as u8,
                    ..pre.user_account
                },
                pre.stack_account,
                now,
            ),
            phase: UnstackPhase::Complete,
            ..pre
        }),
{
    assert(unstack_run(pre, now).1 =~= seq![
        UnstackAction::Thaw { signer: unstack_signer(pre) },
        UnstackAction::Revoke { signer: unstack_signer(pre) },
        UnstackAction::ReadClock,
        UnstackAction::Complete,
    ]);
}

/// Stacking an NFT at `stacked_at` and unstacking it at `released_at` gives
/// the user back the stack count it had, and adds exactly the reward for the
/// whole days in between.
pub proof fn lemma_stack_then_unstack(
    pre: Stack,
    bump: StackBumps,
    stacked_at: i64,
    released_at: i64,
)
    requires
        pre.phase is Ready,
        pre.user_account.no_of_stacked_nft < pre.config_account.max_stack,
        reward_defined(
            pre.config_account,
            pre.user_account,
            stack_record(pre, bump, stacked_at),
            released_at,
        ),
    ensures
        unstack_run(unstack_of(stack_run(pre, bump, stacked_at).0), released_at).0.user_account
            == rewarded(
            pre.config_account,
            pre.user_account,
            stack_record(pre, bump, stacked_at),
            released_at,
        ),
        unstack_run(
            unstack_of(stack_run(pre, bump, stacked_at).0),
            released_at,
        ).0.user_account.no_of_stacked_nft == pre.user_account.no_of_stacked_nft,
        unstack_run(
            unstack_of(stack_run(pre, bump, stacked_at).0),
            released_at,
        ).0.user_account.reward_point == pre.user_account.reward_point + (reward_points(
            pre.config_account,
            stacked_at,
            released_at,
        ) as u32),
{
    lemma_stack_run(pre, bump, stacked_at);
    let s = stack_run(pre, bump, stacked_at).0;
    let u = unstack_of(s);
    assert(User {
        no_of_stacked_nft: (u.user_account.no_of_stacked_nft - 1) as u8,
        ..u.user_account
    } == pre.user_account);
    lemma_unstack_run(u, released_at);
}

/// A stack released before the minimum freeze period (in whole days) earns
/// nothing.
pub proof fn lemma_no_reward_before_min_period(
    config: Config,
    user: User,
    stack: NFTStack,
    now: i64,
)
    requires
        (elapsed_days(stack.stack_time_at, now) as u32) < config.min_freez_period,
    ensures
        reward_points(config, stack.stack_time_at, now) == 0,
        rewarded(config, user, stack, now) == user,
{
}

/// Once the minimum freeze period is reached, a stack earns the daily reward
/// for every whole day it was held.
pub proof fn lemma_reward_per_whole_day(config: Config, stack_time_at: i64, now: i64)
    requires
        (now as u64) >= (stack_time_at as u64),
        config.min_freez_period <= (elapsed_days(stack_time_at, now) as u32),
    ensures
        reward_points(config, stack_time_at, now) == ((now as u64) - (stack_time_at as u64)) / 86400
            * config.reward_per_stack,
{
}

/// The longer a stack is held, the more it earns: released at a later time it
/// books at least as many points, as long as the day count and the points fit
/// in 32 bits; and booking a reward never lowers the user's points.
pub proof fn lemma_reward_grows_with_time(
    config: Config,
    user: User,
    stack: NFTStack,
    earlier: i64,
    later: i64,
)
    requires
        (stack.stack_time_at as u64) <= (earlier as u64) <= (later as u64),
        elapsed_days(stack.stack_time_at, later) <= u32::MAX,
        reward_points(config, stack.stack_time_at, later) <= u32::MAX,
        reward_defined(config, user, stack, earlier),
        reward_defined(config, user, stack, later),
    ensures
        reward_points(config, stack.stack_time_at, earlier) <= reward_points(
            config,
            stack.stack_time_at,
            later,
        ),
        rewarded(config, user, stack, earlier).reward_point <= rewarded(
            config,
            user,
            stack,
            later,
        ).reward_point,
        user.reward_point <= rewarded(config, user, stack, earlier).reward_point,
        user.reward_point <= rewarded(config, user, stack, later).reward_point,
{
    let a: int = (earlier as u64) - (stack.stack_time_at as u64);
    let b: int = (later as u64) - (stack.stack_time_at as u64);
    let d1 = elapsed_days(stack.stack_time_at, earlier);
    let d2 = elapsed_days(stack.stack_time_at, later);
    assert(d1 == a / 86400 && d2 == b / 86400);
    assert(0 <= a / 86400 <= b / 86400) by (nonlinear_arith)
        requires
            0 <= a <= b,
    ;
    let rate = config.reward_per_stack as int;
    assert(d1 * rate <= d2 * rate) by (nonlinear_arith)
        requires
            0 <= d1 <= d2,
            0 <= rate,
    ;
    assert(0 <= d1 * rate) by (nonlinear_arith)
        requires
            0 <= d1,
            0 <= rate,
    ;
    assert((d1 as u32) == d1);
    assert((d2 as u32) == d2);
}

/// Each reward point pays out one whole token of the reward mint, which the
/// configuration creates with six decimals.
pub proof fn lemma_claim_pays_whole_tokens(reward_point: u32)
    ensures
        claim_amount(reward_point, REWARD_MINT_DECIMALS) == reward_point * 1_000_000,
{
    reveal_with_fuel(pow10, 7);
}

/// The configuration written at set-up holds every argument unchanged.
pub proof fn lemma_config_holds_arguments(
    config_bump: u8,
    reward_bump: u8,
    min_freez_period: u32,
    max_stack: u8,
    reward_per_stack: u8,
)
    ensures
        config_spec(config_bump, reward_bump, min_freez_period, max_stack, reward_per_stack).config_bump
            == config_bump,
        config_spec(config_bump, reward_bump, min_freez_period, max_stack, reward_per_stack).reward_bump
            == reward_bump,
        config_spec(
            config_bump,
            reward_bump,
            min_freez_period,
            max_stack,
            reward_per_stack,
        ).min_freez_period == min_freez_period,
        config_spec(config_bump, reward_bump, min_freez_period, max_stack, reward_per_stack).max_stack
            == max_stack,
        config_spec(
            config_bump,
            reward_bump,
            min_freez_period,
            max_stack,
            reward_per_stack,
        ).reward_per_stack == reward_per_stack,
{
}

/// A user record as first created has no points and nothing stacked, whatever
/// its bump.
pub proof fn lemma_fresh_user_is_empty(user_bump: u8)
    ensures
        fresh_user(user_bump).user_bump == user_bump,
        fresh_user(user_bump).reward_point == 0,
        fresh_user(user_bump).no_of_stacked_nft == 0,
{
}

/// The freeze of a stacking request is signed with the stack record's seeds:
/// the user record's address, the NFT's mint and the bump the stack record holds.
pub proof fn lemma_stack_freeze_signer(pre: Stack, bump: StackBumps)
    requires
        pre.phase is Approving,
    ensures
        stack_step(pre, bump, StackEvent::Approved).1 == (StackAction::Freeze {
            signer: NftStackSigner {
                user_account: pre.user_account_key,
                nft_mint: pre.user_nft_mint,
                bump: pre.stack_account.nft_stack_bump,
            },
        }),
{
}

/// A completed stack records the stacked NFT's mint, the user as owner, the
/// clock time and the derived bump, whatever the user's stack count was, and
/// counts one more stacked NFT.
pub proof fn lemma_stack_records_the_stacked_nft(pre: Stack, bump: StackBumps, now: i64)
    requires
        pre.phase is ReadingClock,
    ensures
        stack_step(pre, bump, StackEvent::ClockRead { unix_timestamp: now }).0.stack_account.nft_mint
            == pre.user_nft_mint,
        stack_step(pre, bump, StackEvent::ClockRead { unix_timestamp: now }).0.stack_account.owner
            == pre.user,
        stack_step(
            pre,
            bump,
            StackEvent::ClockRead { unix_timestamp: now },
        ).0.stack_account.stack_time_at == now,
        stack_step(
            pre,
            bump,
            StackEvent::ClockRead { unix_timestamp: now },
        ).0.stack_account.nft_stack_bump == bump.stack_account,
        stack_step(
            pre,
            bump,
            StackEvent::ClockRead { unix_timestamp: now },
        ).0.user_account.no_of_stacked_nft == (pre.user_account.no_of_stacked_nft + 1) as u8,
        stack_step(pre, bump, StackEvent::ClockRead { unix_timestamp: now }).1
            == StackAction::Complete,
{
}

/// The thaw and the revocation of an unstacking request are signed with the
/// stack record's seeds, whatever the user's stack count or bump.
pub proof fn lemma_unstack_signers(pre: Unstack)
    ensures
        pre.phase is Ready ==> unstack_step(pre, UnstackEvent::Start).1 == (UnstackAction::Thaw {
            signer: NftStackSigner {
                user_account: pre.user_account_key,
                nft_mint: pre.nft_mint,
                bump: pre.stack_account.nft_stack_bump,
            },
        }),
        pre.phase is Thawing ==> unstack_step(pre, UnstackEvent::Thawed).1
            == (UnstackAction::Revoke {
            signer: NftStackSigner {
                user_account: pre.user_account_key,
                nft_mint: pre.nft_mint,
                bump: pre.stack_account.nft_stack_bump,
            },
        }),
{
}

/// Releasing a stacked NFT faults exactly when the user has none stacked: a
/// user with at least one stacked NFT, the last one included, gets past the
/// revocation, and the count goes down by one.
pub proof fn lemma_any_stacked_nft_can_be_released(pre: Unstack)
    requires
        pre.phase is Revoking,
    ensures
        unstack_step_defined(pre, UnstackEvent::Revoked) <==> pre.user_account.no_of_stacked_nft > 0,
        pre.user_account.no_of_stacked_nft > 0 ==> unstack_step(
            pre,
            UnstackEvent::Revoked,
        ).0.user_account.no_of_stacked_nft == pre.user_account.no_of_stacked_nft - 1,
        unstack_step(pre, UnstackEvent::Revoked).1 == UnstackAction::ReadClock,
{
}

/// A claim pays exactly the points when the mint has no decimals, and each
/// further decimal multiplies the amount by ten.
pub proof fn lemma_claim_amount_by_decimals(reward_point: u32, decimals: u8)
    requires
        decimals < 255,
    ensures
        claim_amount(reward_point, 0) == reward_point,
        claim_amount(reward_point, (decimals + 1) as u8) == 10 * claim_amount(reward_point, decimals),
{
    assert(pow10(0) == 1);
    assert(reward_point * 1 == reward_point);
    assert(pow10((decimals + 1) as nat) == 10 * pow10(decimals as nat));
    assert(reward_point * (10 * pow10(decimals as nat)) == 10 * (reward_point * pow10(
        decimals as nat,
    ))) by (nonlinear_arith);
}

} // verus!
