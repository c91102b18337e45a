use reputation_board::instructions::{
    admin_reset_all_scores, admin_set_role_thresholds, apply_decay, decay_points, initialize,
    initialize_user, vote, AdminResetAllScores, AdminSetRoleThresholds, ApplyDecay, Initialize,
    InitializeUser, Vote,
};
use reputation_board::pubkey::Pubkey;
use reputation_board::roles::check_role_unlock;
use reputation_board::state::{
    ReputationBoard, ReputationError, UserAccount, VoteCooldown, VoterAccount, DECAY_RATE,
};

const DAY: i64 = 86400;
const WEEK: i64 = 604800;

fn key(n: u8) -> Pubkey {
    Pubkey::new_from_array([n; 32])
}

fn board(thresholds: Vec<u64>, min_balance: u64) -> ReputationBoard {
    ReputationBoard {
        admin: key(1),
        required_token_mint: key(2),
        min_token_balance: min_balance,
        role_thresholds: thresholds,
        last_decay_timestamp: 0,
        total_members: 0,
    }
}

fn member(wallet: Pubkey, points: u64) -> UserAccount {
    UserAccount { wallet, reputation_points: points, roles: Vec::new(), last_activity: 7 }
}

fn voter_record(wallet: Pubkey) -> VoterAccount {
    VoterAccount { wallet, total_votes_cast: 0, last_vote_timestamp: 0 }
}

fn vote_ctx(board: ReputationBoard, target: UserAccount, voter: Pubkey, balance: u64) -> Vote {
    Vote {
        reputation_board: board,
        target_account: target,
        voter_account: voter_record(voter),
        vote_cooldown: None,
        voter,
        voter_token_balance: balance,
    }
}

/// Nine distinct voters upvote `b` once each, then a tenth.
fn ten_upvotes() -> (UserAccount, Vec<(u8, u64)>) {
    let b = key(50);
    let mut account = member(b, 0);
    let mut last_unlocks = Vec::new();
    for v in 0..10u8 {
        let mut ctx = vote_ctx(board(vec![5, 10], 1), account, key(100 + v), 1);
        let (cast, unlocked) = vote(&mut ctx, b, true, 1000).unwrap();
        assert_eq!(cast.new_reputation, (v as u64) + 1);
        account = ctx.target_account;
        if v == 8 {
            assert_eq!(account.reputation_points, 9);
            assert_eq!(account.roles, vec![0]);
        }
        last_unlocks = unlocked.iter().map(|e| (e.role_level, e.reputation_points)).collect();
    }
    (account, last_unlocks)
}

#[test]
fn nine_then_ten_upvotes_unlock_roles() {
    let (account, last_unlocks) = ten_upvotes();
    assert_eq!(account.reputation_points, 10);
    assert_eq!(account.roles, vec![0, 1]);
    assert_eq!(last_unlocks, vec![(1, 10)]);
}

#[test]
fn low_balance_vote_rejected() {
    let target = key(9);
    let mut ctx = vote_ctx(board(vec![5, 10], 100), member(target, 3), key(8), 99);
    let r = vote(&mut ctx, target, true, 1000);
    assert!(matches!(r, Err(ReputationError::InsufficientTokenBalance)));
    assert!(ctx.vote_cooldown.is_none());
    assert_eq!(ctx.target_account.reputation_points, 3);
    assert!(ctx.target_account.roles.is_empty());
}

#[test]
fn reset_after_upvotes_clears_roles() {
    let (account, _) = ten_upvotes();
    let mut ctx = AdminResetAllScores {
        reputation_board: board(vec![5, 10], 1),
        admin: key(1),
        user_accounts: vec![account, member(key(60), 4)],
    };
    let r = admin_reset_all_scores(&mut ctx).unwrap();
    assert_eq!(r.admin, key(1));
    for a in &ctx.user_accounts {
        assert_eq!(a.reputation_points, 0);
        assert!(a.roles.is_empty());
        assert_eq!(a.last_activity, 7);
    }
    assert_eq!(ctx.user_accounts[0].wallet, key(50));
    // Evaluating again grants nothing until reputation is rebuilt.
    let thresholds = board(vec![5, 10], 1);
    let mut b = ctx.user_accounts[0].clone();
    let unlocked = check_role_unlock(&thresholds, &mut b);
    assert!(unlocked.is_empty());
    assert!(b.roles.is_empty());
    let mut decay = ApplyDecay { reputation_board: thresholds, user_accounts: vec![b] };
    apply_decay(&mut decay, WEEK).unwrap();
    assert!(decay.user_accounts[0].roles.is_empty());
    assert_eq!(decay.user_accounts[0].reputation_points, 0);
}

#[test]
fn cooldown_boundary() {
    let target = key(9);
    let voter = key(8);
    let last = 5000;
    let mut ctx = vote_ctx(board(vec![], 0), member(target, 0), voter, 0);
    ctx.vote_cooldown = Some(VoteCooldown { voter, target, last_vote_timestamp: last });
    let r = vote(&mut ctx, target, true, last + DAY - 1);
    assert!(matches!(r, Err(ReputationError::CooldownActive)));
    assert_eq!(ctx.target_account.reputation_points, 0);
    assert_eq!(ctx.vote_cooldown.unwrap().last_vote_timestamp, last);
    let (cast, _) = vote(&mut ctx, target, true, last + DAY).unwrap();
    assert_eq!(cast.new_reputation, 1);
    let cooldown = ctx.vote_cooldown.unwrap();
    assert_eq!(cooldown.last_vote_timestamp, last + DAY);
    assert_eq!(cooldown.voter, voter);
    assert_eq!(cooldown.target, target);
    let r = vote(&mut ctx, target, true, last + DAY + 1);
    assert!(matches!(r, Err(ReputationError::CooldownActive)));
}

#[test]
fn first_vote_has_no_cooldown() {
    let target = key(9);
    let mut ctx = vote_ctx(board(vec![], 0), member(target, 0), key(8), 0);
    let (cast, unlocked) = vote(&mut ctx, target, false, 0).unwrap();
    assert_eq!(cast.new_reputation, 0);
    assert!(!cast.is_upvote);
    assert_eq!(cast.voter, key(8));
    assert_eq!(cast.target, target);
    assert!(unlocked.is_empty());
    assert_eq!(ctx.vote_cooldown.unwrap().last_vote_timestamp, 0);
}

#[test]
fn upvote_saturates_at_max() {
    let target = key(9);
    let mut ctx = vote_ctx(board(vec![], 0), member(target, u64::MAX), key(8), 0);
    let (cast, _) = vote(&mut ctx, target, true, 10).unwrap();
    assert_eq!(cast.new_reputation, u64::MAX);
    assert_eq!(ctx.target_account.reputation_points, u64::MAX);
}

#[test]
fn downvote_floors_at_zero() {
    let target = key(9);
    let mut ctx = vote_ctx(board(vec![], 0), member(target, 1), key(8), 0);
    vote(&mut ctx, target, false, 10).unwrap();
    assert_eq!(ctx.target_account.reputation_points, 0);
    ctx.vote_cooldown = None;
    vote(&mut ctx, target, false, 20).unwrap();
    assert_eq!(ctx.target_account.reputation_points, 0);
}

#[test]
fn vote_leaves_voter_record_alone() {
    let target = key(9);
    let mut ctx = vote_ctx(board(vec![], 0), member(target, 1), key(8), 0);
    vote(&mut ctx, target, true, 10).unwrap();
    assert_eq!(ctx.voter_account.total_votes_cast, 0);
    assert_eq!(ctx.voter_account.last_vote_timestamp, 0);
}

#[test]
fn decay_boundary() {
    let mut ctx = ApplyDecay { reputation_board: board(vec![], 0), user_accounts: vec![] };
    ctx.reputation_board.last_decay_timestamp = 1000;
    let r = apply_decay(&mut ctx, 1000 + WEEK - 1);
    assert!(matches!(r, Err(ReputationError::DecayTooEarly)));
    assert_eq!(ctx.reputation_board.last_decay_timestamp, 1000);
    let e = apply_decay(&mut ctx, 1000 + WEEK).unwrap();
    assert_eq!(e.timestamp, 1000 + WEEK);
    assert_eq!(e.decay_rate, DECAY_RATE);
    assert_eq!(ctx.reputation_board.last_decay_timestamp, 1000 + WEEK);
    let r = apply_decay(&mut ctx, 1000 + WEEK);
    assert!(matches!(r, Err(ReputationError::DecayTooEarly)));
}

#[test]
fn decay_compounds_per_week() {
    let mut a = member(key(3), 100);
    a.roles = vec![0];
    let mut ctx = ApplyDecay {
        reputation_board: board(vec![50], 0),
        user_accounts: vec![a, member(key(4), 5), member(key(5), 0)],
    };
    apply_decay(&mut ctx, 2 * WEEK + 10).unwrap();
    assert_eq!(ctx.user_accounts[0].reputation_points, 81);
    assert_eq!(ctx.user_accounts[0].roles, vec![0]);
    assert_eq!(ctx.user_accounts[1].reputation_points, 3);
    assert_eq!(ctx.user_accounts[2].reputation_points, 0);
}

#[test]
fn decay_points_values() {
    assert_eq!(decay_points(100, 0), 100);
    assert_eq!(decay_points(100, 1), 90);
    assert_eq!(decay_points(5, 1), 4);
    assert_eq!(decay_points(9, 1), 8);
    assert_eq!(decay_points(1, 1), 0);
    assert_eq!(decay_points(1000, 3), 729);
    assert_eq!(decay_points(u64::MAX, 1), 16602069666338596453);
    assert_eq!(decay_points(u64::MAX, u64::MAX), 0);
}

#[test]
fn roles_survive_downvotes_and_threshold_changes() {
    let target = key(9);
    let mut ctx = vote_ctx(board(vec![1], 0), member(target, 0), key(8), 0);
    let (_, unlocked) = vote(&mut ctx, target, true, 10).unwrap();
    assert_eq!(unlocked.len(), 1);
    assert_eq!(unlocked[0].wallet, target);
    assert_eq!(unlocked[0].role_level, 0);
    assert_eq!(unlocked[0].reputation_points, 1);
    ctx.vote_cooldown = None;
    vote(&mut ctx, target, false, 20).unwrap();
    assert_eq!(ctx.target_account.reputation_points, 0);
    assert_eq!(ctx.target_account.roles, vec![0]);
    let mut admin_ctx = AdminSetRoleThresholds { reputation_board: ctx.reputation_board, admin: key(1) };
    admin_set_role_thresholds(&mut admin_ctx, vec![100]).unwrap();
    assert_eq!(admin_ctx.reputation_board.role_thresholds, vec![100]);
    let mut account = ctx.target_account;
    let unlocked = check_role_unlock(&admin_ctx.reputation_board, &mut account);
    assert!(unlocked.is_empty());
    assert_eq!(account.roles, vec![0]);
}

#[test]
fn evaluation_is_idempotent() {
    let b = board(vec![3, 1, 7, 2], 0);
    let mut account = member(key(4), 3);
    let first = check_role_unlock(&b, &mut account);
    let levels: Vec<u8> = first.iter().map(|e| e.role_level).collect();
    assert_eq!(levels, vec![0, 1, 3]);
    assert_eq!(account.roles, vec![0, 1, 3]);
    let second = check_role_unlock(&b, &mut account);
    assert!(second.is_empty());
    assert_eq!(account.roles, vec![0, 1, 3]);
}

#[test]
fn unsorted_thresholds_grant_higher_index_first() {
    let b = board(vec![10, 2], 0);
    let mut account = member(key(4), 2);
    let unlocked = check_role_unlock(&b, &mut account);
    assert_eq!(unlocked.len(), 1);
    assert_eq!(unlocked[0].role_level, 1);
    assert_eq!(account.roles, vec![1]);
}

#[test]
fn non_admin_cannot_set_thresholds() {
    let mut ctx = AdminSetRoleThresholds { reputation_board: board(vec![5], 0), admin: key(77) };
    let r = admin_set_role_thresholds(&mut ctx, vec![1, 2]);
    assert!(matches!(r, Err(ReputationError::UnauthorizedAdmin)));
    assert_eq!(ctx.reputation_board.role_thresholds, vec![5]);
    let r = admin_set_role_thresholds(&mut ctx, vec![0; 11]);
    assert!(matches!(r, Err(ReputationError::UnauthorizedAdmin)));
}

#[test]
fn non_admin_cannot_reset() {
    let mut a = member(key(3), 12);
    a.roles = vec![0];
    let mut ctx = AdminResetAllScores {
        reputation_board: board(vec![5], 0),
        admin: key(77),
        user_accounts: vec![a],
    };
    let r = admin_reset_all_scores(&mut ctx);
    assert!(matches!(r, Err(ReputationError::UnauthorizedAdmin)));
    assert_eq!(ctx.user_accounts[0].reputation_points, 12);
    assert_eq!(ctx.user_accounts[0].roles, vec![0]);
}

#[test]
fn too_many_thresholds_rejected() {
    let mut ctx = AdminSetRoleThresholds { reputation_board: board(vec![5], 0), admin: key(1) };
    let r = admin_set_role_thresholds(&mut ctx, vec![0; 11]);
    assert!(matches!(r, Err(ReputationError::InvalidRoleThreshold)));
    assert_eq!(ctx.reputation_board.role_thresholds, vec![5]);
    let r = admin_set_role_thresholds(&mut ctx, vec![0; 10]).unwrap();
    assert_eq!(r.admin, key(1));
    assert_eq!(ctx.reputation_board.role_thresholds.len(), 10);
}

#[test]
fn initialize_board() {
    let mut ctx = Initialize { reputation_board: None };
    let e = initialize(&mut ctx, key(1), key(2), 50, vec![5, 10], 1234).unwrap();
    assert_eq!(e.admin, key(1));
    assert_eq!(e.required_token_mint, key(2));
    assert_eq!(e.min_token_balance, 50);
    let b = ctx.reputation_board.as_ref().unwrap();
    assert_eq!(b.role_thresholds, vec![5, 10]);
    assert_eq!(b.last_decay_timestamp, 1234);
    assert_eq!(b.total_members, 0);
    let r = initialize(&mut ctx, key(3), key(2), 1, vec![], 9);
    assert!(matches!(r, Err(ReputationError::AlreadyInitialized)));
    assert_eq!(ctx.reputation_board.unwrap().admin, key(1));
}

#[test]
fn initialize_rejects_too_many_thresholds() {
    let mut ctx = Initialize { reputation_board: None };
    let r = initialize(&mut ctx, key(1), key(2), 50, vec![1; 11], 0);
    assert!(matches!(r, Err(ReputationError::InvalidRoleThreshold)));
    assert!(ctx.reputation_board.is_none());
}

#[test]
fn register_member() {
    let mut ctx = InitializeUser {
        reputation_board: board(vec![], 0),
        user_account: None,
        voter_account: None,
        user: key(20),
    };
    let e = initialize_user(&mut ctx, 555).unwrap();
    assert_eq!(e.wallet, key(20));
    let a = ctx.user_account.as_ref().unwrap();
    assert_eq!(a.wallet, key(20));
    assert_eq!(a.reputation_points, 0);
    assert!(a.roles.is_empty());
    assert_eq!(a.last_activity, 555);
    let v = ctx.voter_account.unwrap();
    assert_eq!(v.wallet, key(20));
    assert_eq!(v.total_votes_cast, 0);
    assert_eq!(v.last_vote_timestamp, 0);
    assert_eq!(ctx.reputation_board.total_members, 1);
    let r = initialize_user(&mut ctx, 556);
    assert!(matches!(r, Err(ReputationError::AlreadyRegistered)));
    assert_eq!(ctx.reputation_board.total_members, 1);
    assert_eq!(ctx.user_account.unwrap().last_activity, 555);
}

#[test]
fn pubkey_equality_and_bytes() {
    let mut bytes = [7u8; 32];
    assert_eq!(key(7), Pubkey::new_from_array(bytes));
    bytes[31] = 8;
    assert_ne!(key(7), Pubkey::new_from_array(bytes));
    assert_eq!(Pubkey::new_from_array(bytes).to_bytes(), bytes);
}

#[test]
fn well_formedness_checks() {
    assert!(board(vec![0; 10], 0).is_well_formed());
    assert!(!board(vec![0; 11], 0).is_well_formed());
    let mut a = member(key(1), 0);
    assert!(a.is_well_formed());
    a.roles = vec![0, 9, 3];
    assert!(a.is_well_formed());
    a.roles = vec![0, 3, 0];
    assert!(!a.is_well_formed());
    a.roles = vec![10];
    assert!(!a.is_well_formed());
}

#[test]
fn error_messages() {
    assert_eq!(ReputationError::CooldownActive.message(), "Cooldown period is still active");
    assert_eq!(ReputationError::DecayTooEarly.message(), "Decay can only be applied once per week");
    assert_eq!(ReputationError::AlreadyRegistered.message(), "Member is already registered");
}
