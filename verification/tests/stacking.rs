use nft_stacking::{
    initialize, initialize_user, Config, InitUser, InitUserBumps, InitaizeConfig,
    InitaizeConfigBumps, NFTStack, NftStackSigner, Pubkey, Stack, StackAction, StackBumps,
    StackError, StackEvent, StackPhase, User,
};

fn key(b: u8) -> Pubkey {
    Pubkey::new([b; 32])
}

fn config(max_stack: u8) -> Config {
    Config { config_bump: 254, reward_bump: 253, min_freez_period: 7, max_stack, reward_per_stack: 3 }
}

fn empty_record() -> NFTStack {
    NFTStack { nft_mint: key(0), owner: key(0), stack_time_at: 0, nft_stack_bump: 0 }
}

fn user(count: u8) -> User {
    User { user_bump: 250, reward_point: 12, no_of_stacked_nft: count }
}

fn request(cfg: Config, u: User) -> Stack {
    Stack::new(key(1), key(2), cfg, u, key(3), empty_record())
}

#[test]
fn init_config_writes_every_field() {
    let mut accounts = InitaizeConfig { config_pda: config(0) };
    let r = accounts.init_config(30, 5, 10, InitaizeConfigBumps { config_pda: 9, reward_mint: 8 });
    assert_eq!(r, Ok(()));
    assert_eq!(
        accounts.config_pda,
        Config { config_bump: 9, reward_bump: 8, min_freez_period: 30, max_stack: 5, reward_per_stack: 10 }
    );
}

#[test]
fn initialize_sets_up_configuration() {
    let mut accounts = InitaizeConfig { config_pda: config(1) };
    let r = initialize(&mut accounts, InitaizeConfigBumps { config_pda: 1, reward_mint: 2 }, 0, 255, 255);
    assert_eq!(r, Ok(()));
    assert_eq!(
        accounts.config_pda,
        Config { config_bump: 1, reward_bump: 2, min_freez_period: 0, max_stack: 255, reward_per_stack: 255 }
    );
}

#[test]
fn new_user_has_no_points_and_no_stacks() {
    let mut accounts = InitUser { user_pda: User { user_bump: 1, reward_point: 99, no_of_stacked_nft: 4 } };
    assert_eq!(accounts.save_user_data(InitUserBumps { user_pda: 77 }), Ok(()));
    assert_eq!(accounts.user_pda, User { user_bump: 77, reward_point: 0, no_of_stacked_nft: 0 });
    let mut again = InitUser { user_pda: user(3) };
    assert_eq!(initialize_user(&mut again, InitUserBumps { user_pda: 5 }), Ok(()));
    assert_eq!(again.user_pda, User { user_bump: 5, reward_point: 0, no_of_stacked_nft: 0 });
}

#[test]
fn stacking_approves_freezes_then_records() {
    let mut s = request(config(3), user(1));
    let bump = StackBumps { stack_account: 42 };
    assert_eq!(s.stack(bump, StackEvent::Start), StackAction::Approve { amount: 1 });
    assert_eq!(s.phase, StackPhase::Approving);
    assert_eq!(
        s.stack(bump, StackEvent::Approved),
        StackAction::Freeze { signer: NftStackSigner { user_account: key(3), nft_mint: key(2), bump: 0 } }
    );
    assert_eq!(s.stack(bump, StackEvent::Frozen), StackAction::ReadClock);
    assert_eq!(s.user_account.no_of_stacked_nft, 1);
    assert_eq!(s.stack(bump, StackEvent::ClockRead { unix_timestamp: 1_700_000_000 }), StackAction::Complete);
    assert_eq!(s.phase, StackPhase::Complete);
    assert_eq!(s.user_account, User { user_bump: 250, reward_point: 12, no_of_stacked_nft: 2 });
    assert_eq!(
        s.stack_account,
        NFTStack { nft_mint: key(2), owner: key(1), stack_time_at: 1_700_000_000, nft_stack_bump: 42 }
    );
}

#[test]
fn stacking_at_the_limit_is_refused() {
    let mut s = request(config(2), user(2));
    let before = s;
    let bump = StackBumps { stack_account: 1 };
    assert_eq!(s.stack(bump, StackEvent::Start), StackAction::Reject { error: StackError::MaxStackReach });
    assert_eq!(s.phase, StackPhase::Rejected);
    assert_eq!(s.user_account, before.user_account);
    assert_eq!(s.stack_account, before.stack_account);
    // Later events change nothing.
    assert_eq!(s.stack(bump, StackEvent::ClockRead { unix_timestamp: 5 }), StackAction::Ignore);
    assert_eq!(s.user_account, before.user_account);
}

#[test]
fn zero_limit_refuses_every_stack() {
    let mut s = request(config(0), user(0));
    assert_eq!(
        s.stack(StackBumps { stack_account: 0 }, StackEvent::Start),
        StackAction::Reject { error: StackError::MaxStackReach }
    );
}

#[test]
fn stacking_up_to_the_limit_then_refused() {
    let cfg = config(3);
    let mut u = user(0);
    let bump = StackBumps { stack_account: 7 };
    for i in 0..3u8 {
        let mut s = request(cfg, u);
        assert_eq!(s.stack(bump, StackEvent::Start), StackAction::Approve { amount: 1 });
        s.stack(bump, StackEvent::Approved);
        s.stack(bump, StackEvent::Frozen);
        assert_eq!(s.stack(bump, StackEvent::ClockRead { unix_timestamp: i as i64 }), StackAction::Complete);
        u = s.user_account;
        assert_eq!(u.no_of_stacked_nft, i + 1);
    }
    let mut s = request(cfg, u);
    assert_eq!(s.stack(bump, StackEvent::Start), StackAction::Reject { error: StackError::MaxStackReach });
    assert_eq!(s.user_account.no_of_stacked_nft, 3);
}

#[test]
fn out_of_order_events_are_ignored() {
    let mut s = request(config(3), user(0));
    let before = s;
    let bump = StackBumps { stack_account: 1 };
    assert_eq!(s.stack(bump, StackEvent::Frozen), StackAction::Ignore);
    assert_eq!(s.stack(bump, StackEvent::ClockRead { unix_timestamp: 9 }), StackAction::Ignore);
    assert_eq!(s, before);
    s.stack(bump, StackEvent::Start);
    assert_eq!(s.stack(bump, StackEvent::Start), StackAction::Ignore);
    assert_eq!(s.phase, StackPhase::Approving);
}

#[test]
fn freeze_is_signed_with_the_bump_the_record_holds() {
    let mut record = empty_record();
    record.nft_stack_bump = 200;
    let mut s = Stack::new(key(1), key(2), config(1), user(0), key(3), record);
    let bump = StackBumps { stack_account: 9 };
    s.stack(bump, StackEvent::Start);
    assert_eq!(
        s.stack(bump, StackEvent::Approved),
        StackAction::Freeze { signer: NftStackSigner { user_account: key(3), nft_mint: key(2), bump: 200 } }
    );
}

#[test]
fn pubkey_bytes_round_trip() {
    let mut b = [0u8; 32];
    b[0] = 1;
    b[31] = 255;
    assert_eq!(Pubkey::new(b).to_bytes(), b);
}
