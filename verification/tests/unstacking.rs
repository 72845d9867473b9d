use nft_stacking::{
    Config, NFTStack, NftStackSigner, Pubkey, Stack, StackBumps, StackEvent, Unstack,
    UnstackAction, UnstackEvent, UnstackPhase, User,
};

const DAY: i64 = 86_400;

fn key(b: u8) -> Pubkey {
    Pubkey::new([b; 32])
}

fn config(min_freez_period: u32, reward_per_stack: u8) -> Config {
    Config { config_bump: 1, reward_bump: 2, min_freez_period, max_stack: 5, reward_per_stack }
}

fn record(stack_time_at: i64) -> NFTStack {
    NFTStack { nft_mint: key(2), owner: key(1), stack_time_at, nft_stack_bump: 33 }
}

fn request(cfg: Config, u: User, stack_time_at: i64) -> Unstack {
    Unstack::new(key(1), key(2), cfg, u, key(3), record(stack_time_at))
}

fn user(points: u32, count: u8) -> User {
    User { user_bump: 4, reward_point: points, no_of_stacked_nft: count }
}

fn run(u: &mut Unstack, now: i64) -> Vec<UnstackAction> {
    let mut out = Vec::new();
    for e in [UnstackEvent::Start, UnstackEvent::Thawed, UnstackEvent::Revoked, UnstackEvent::ClockRead { unix_timestamp: now }] {
        assert!(!u.faults_on(e));
        out.push(u.unstack(e));
    }
    out
}

#[test]
fn unstacking_thaws_revokes_and_rewards() {
    let mut u = request(config(7, 3), user(5, 2), 1_000);
    let signer = NftStackSigner { user_account: key(3), nft_mint: key(2), bump: 33 };
    let actions = run(&mut u, 1_000 + 10 * DAY + 5);
    assert_eq!(
        actions,
        vec![
            UnstackAction::Thaw { signer },
            UnstackAction::Revoke { signer },
            UnstackAction::ReadClock,
            UnstackAction::Complete
        ]
    );
    assert_eq!(u.phase, UnstackPhase::Complete);
    assert_eq!(u.user_account, user(5 + 30, 1));
}

#[test]
fn no_reward_before_minimum_period() {
    let mut u = request(config(7, 3), user(5, 1), 0);
    u.reward_user(7 * DAY - 1).unwrap();
    assert_eq!(u.user_account, user(5, 1));
}

#[test]
fn reward_exactly_at_minimum_period() {
    let mut u = request(config(7, 3), user(5, 1), 0);
    u.reward_user(7 * DAY).unwrap();
    assert_eq!(u.user_account.reward_point, 5 + 21);
}

#[test]
fn zero_minimum_period_rewards_partial_days_as_zero() {
    let mut u = request(config(0, 9), user(0, 1), 100);
    u.reward_user(100 + DAY - 1).unwrap();
    assert_eq!(u.user_account.reward_point, 0);
    u.reward_user(100 + 2 * DAY).unwrap();
    assert_eq!(u.user_account.reward_point, 18);
}

#[test]
fn day_count_is_compared_as_32_bits() {
    // 2^32 days: the day count read as 32 bits is 0, below a period of 1.
    let days: i64 = 1 << 32;
    let mut u = request(config(1, 1), user(0, 1), 0);
    u.reward_user(days * DAY).unwrap();
    assert_eq!(u.user_account.reward_point, 0);
    // With no period the points (2^32) are booked as 32 bits: 0.
    let mut v = request(config(0, 1), user(3, 1), 0);
    v.reward_user(days * DAY).unwrap();
    assert_eq!(v.user_account.reward_point, 3);
}

#[test]
fn faults_are_reported() {
    let u = request(config(0, 1), user(0, 0), 0);
    let mut revoking = u;
    revoking.phase = UnstackPhase::Revoking;
    assert!(revoking.faults_on(UnstackEvent::Revoked));
    assert!(!revoking.faults_on(UnstackEvent::Thawed));

    let mut clock = request(config(0, 1), user(0, 1), 500);
    clock.phase = UnstackPhase::ReadingClock;
    assert!(clock.faults_on(UnstackEvent::ClockRead { unix_timestamp: 499 }));
    assert!(!clock.faults_on(UnstackEvent::ClockRead { unix_timestamp: 500 }));

    let mut full = request(config(0, 1), user(u32::MAX, 1), 0);
    full.phase = UnstackPhase::ReadingClock;
    assert!(!full.faults_on(UnstackEvent::ClockRead { unix_timestamp: DAY - 1 }));
    assert!(full.faults_on(UnstackEvent::ClockRead { unix_timestamp: DAY }));
}

#[test]
fn unstack_ignores_out_of_order_events() {
    let mut u = request(config(0, 1), user(0, 1), 0);
    let before = u;
    assert_eq!(u.unstack(UnstackEvent::Revoked), UnstackAction::Ignore);
    assert_eq!(u.unstack(UnstackEvent::ClockRead { unix_timestamp: 10 * DAY }), UnstackAction::Ignore);
    assert_eq!(u, before);
}

#[test]
fn stack_then_unstack_restores_count_and_adds_reward() {
    let cfg = config(2, 4);
    let start = user(10, 1);
    let mut s = Stack::new(key(1), key(2), cfg, start, key(3), record(0));
    let bump = StackBumps { stack_account: 99 };
    s.stack(bump, StackEvent::Start);
    s.stack(bump, StackEvent::Approved);
    s.stack(bump, StackEvent::Frozen);
    s.stack(bump, StackEvent::ClockRead { unix_timestamp: 50 * DAY });
    assert_eq!(s.user_account.no_of_stacked_nft, 2);
    let mut u = Unstack::new(s.user, s.user_nft_mint, s.config_account, s.user_account, s.user_account_key, s.stack_account);
    run(&mut u, 55 * DAY + 3);
    assert_eq!(u.user_account, User { user_bump: 4, reward_point: 10 + 5 * 4, no_of_stacked_nft: 1 });
}

#[test]
fn later_release_earns_at_least_as_much() {
    let mut previous = 0;
    for days in [0i64, 6, 7, 8, 30, 365] {
        let mut u = request(config(7, 2), user(1, 1), 3_000);
        u.reward_user(3_000 + days * DAY + 17).unwrap();
        assert!(u.user_account.reward_point >= 1);
        assert!(u.user_account.reward_point >= previous);
        previous = u.user_account.reward_point;
    }
    assert_eq!(previous, 1 + 365 * 2);
}
