//! The board's operations. Each takes the accounts it works on, the current
//! time and the caller's identity as plain values, and either applies all of
//! its effects or none.
use vstd::prelude::*;

use crate::pubkey::Pubkey;
use crate::roles::{check_role_unlock, new_grants, unlock, unlock_events};
use crate::state::{
    AllScoresReset, BoardInitialized, DecayApplied, ReputationBoard, ReputationError,
    RoleThresholdsUpdated, RoleUnlocked, UserAccount, UserInitialized, VoteCast, VoteCooldown,
    VoterAccount, BASIS_POINTS, COOLDOWN_PERIOD, DECAY_RATE, MAX_ROLES, WEEK_IN_SECONDS,
};

verus! {

/// The accounts that board creation works on.
pub struct Initialize {
    /// The board, if it exists already.
    pub reputation_board: Option<ReputationBoard>,
}

/// The accounts that a vote works on.
pub struct Vote {
    pub reputation_board: ReputationBoard,
    /// The account of the member voted on.
    pub target_account: UserAccount,
    pub voter_account: VoterAccount,
    /// The cooldown record of this voter on this target, if any.
    pub vote_cooldown: Option<VoteCooldown>,
    pub voter: Pubkey,
    /// The voter's holdings of the board's required token.
    pub voter_token_balance: u64,
}

/// The accounts that member registration works on.
pub struct InitializeUser {
    pub reputation_board: ReputationBoard,
    /// The member's reputation account, if it exists already.
    pub user_account: Option<UserAccount>,
    /// The member's voter record, if it exists already.
    pub voter_account: Option<VoterAccount>,
    pub user: Pubkey,
}

/// The accounts that a score reset works on.
pub struct AdminResetAllScores {
    pub reputation_board: ReputationBoard,
    /// The caller.
    pub admin: Pubkey,
    /// Every member's reputation account.
    pub user_accounts: Vec<UserAccount>,
}

/// The accounts that a decay tick works on.
pub struct ApplyDecay {
    pub reputation_board: ReputationBoard,
    /// Every member's reputation account.
    pub user_accounts: Vec<UserAccount>,
}

/// The accounts that a threshold update works on.
pub struct AdminSetRoleThresholds {
    pub reputation_board: ReputationBoard,
    /// The caller.
    pub admin: Pubkey,
}

/// Whether a vote at `now` is outside the cooldown of a vote at `last`.
pub open spec fn cooldown_elapsed(last: i64, now: i64) -> bool {
    now - last >= COOLDOWN_PERIOD
}

/// Whether a decay tick at `now` may follow one at `last`.
pub open spec fn decay_due(last: i64, now: i64) -> bool {
    now - last >= WEEK_IN_SECONDS
}

/// A reputation after one vote: one up or down, saturating at both ends.
pub open spec fn vote_step(points: u64, is_upvote: bool) -> u64 {
    if is_upvote {
        if points == u64::MAX {
            points
        } else {
            (points + 1) as u64
        }
    } else {
        if points == 0 {
            0
        } else {
            (points - 1) as u64
        }
    }
}

/// Why a vote at `now` would be rejected, if it would.
pub open spec fn vote_error(ctx: Vote, now: i64) -> Option<ReputationError> {
    if ctx.voter_token_balance < ctx.reputation_board.min_token_balance {
        Some(ReputationError::InsufficientTokenBalance)
    } else if ctx.vote_cooldown is Some && !cooldown_elapsed(
        ctx.vote_cooldown->0.last_vote_timestamp,
        now,
    ) {
        Some(ReputationError::CooldownActive)
    } else {
        None
    }
}

/// A reputation after one decay period: reduced by the decay rate, rounded down.
pub open spec fn decay_step(points: nat) -> nat {
    points * ((BASIS_POINTS - DECAY_RATE) as nat) / (BASIS_POINTS as nat)
}

/// A reputation after `periods` decay periods, compounding.
pub open spec fn decayed(points: nat, periods: nat) -> nat
    decreases periods,
{
    if periods == 0 {
        points
    } else {
        decayed(decay_step(points), (periods - 1) as nat)
    }
}

/// Full decay periods between a tick at `last` and one at `now`.
pub open spec fn decay_periods(last: i64, now: i64) -> nat {
    ((now - last) / (WEEK_IN_SECONDS as int)) as nat
}

/// A reputation after a sequence of votes, `true` for an upvote.
pub open spec fn tally(points: u64, votes: Seq<bool>) -> u64
    decreases votes.len(),
{
    if votes.len() == 0 {
        points
    } else {
        vote_step(tally(points, votes.drop_last()), votes.last())
    }
}

/// How many of `votes` equal `kind`.
pub open spec fn count_votes(votes: Seq<bool>, kind: bool) -> nat
    decreases votes.len(),
{
    if votes.len() == 0 {
        0
    } else {
        count_votes(votes.drop_last(), kind) + if votes.last() == kind {
            1nat
        } else {
            0nat
        }
    }
}

/// Votes saturate and never wrap: over any sequence of votes the score
/// rises by at most the number of upvotes and falls by at most the number
/// of downvotes, so upvotes alone never lower it and downvotes alone never
/// raise it.
pub proof fn lemma_votes_saturate(points: u64, votes: Seq<bool>)
    ensures
        tally(points, votes) <= points + count_votes(votes, true),
        tally(points, votes) >= points - count_votes(votes, false),
        count_votes(votes, false) == 0 ==> tally(points, votes) >= points,
        count_votes(votes, true) == 0 ==> tally(points, votes) <= points,
    decreases votes.len(),
{
    if votes.len() > 0 {
        lemma_votes_saturate(points, votes.drop_last());
    }
}

/// The cooldown ends exactly one day after the last vote on the pair: a
/// vote one second earlier is rejected, a vote at that instant counts.
pub proof fn lemma_cooldown_boundary(ctx: Vote)
    requires
        ctx.voter_token_balance >= ctx.reputation_board.min_token_balance,
        ctx.vote_cooldown is Some,
        ctx.vote_cooldown->0.last_vote_timestamp + COOLDOWN_PERIOD <= i64::MAX,
    ensures
        vote_error(
            ctx,
            (ctx.vote_cooldown->0.last_vote_timestamp + COOLDOWN_PERIOD - 1) as i64,
        ) == Some(ReputationError::CooldownActive),
        vote_error(ctx, (ctx.vote_cooldown->0.last_vote_timestamp + COOLDOWN_PERIOD) as i64)
            is None,
{
}

/// A decay tick is due exactly one week after the last one, and only once:
/// a second tick at the same instant is rejected.
pub proof fn lemma_decay_boundary(last: i64)
    requires
        last + WEEK_IN_SECONDS <= i64::MAX,
    ensures
        !decay_due(last, (last + WEEK_IN_SECONDS - 1) as i64),
        decay_due(last, (last + WEEK_IN_SECONDS) as i64),
        decay_periods(last, (last + WEEK_IN_SECONDS) as i64) == 1,
        !decay_due((last + WEEK_IN_SECONDS) as i64, (last + WEEK_IN_SECONDS) as i64),
{
}

/// Decay never takes a role away.
pub proof fn lemma_decay_keeps_roles(before: UserAccount, after: UserAccount, periods: nat)
    requires
        is_decayed(before, after, periods),
    ensures
        after.role_set() == before.role_set(),
{
}

/// `after` is `before` with its score and roles cleared.
pub open spec fn is_reset(before: UserAccount, after: UserAccount) -> bool {
    &&& after.wallet == before.wallet
    &&& after.reputation_points == 0
    &&& after.roles@ == Seq::<u8>::empty()
    &&& after.last_activity == before.last_activity
}

/// `after` is `before` decayed over `periods` periods, roles untouched.
pub open spec fn is_decayed(before: UserAccount, after: UserAccount, periods: nat) -> bool {
    &&& after.wallet == before.wallet
    &&& after.reputation_points == decayed(before.reputation_points as nat, periods)
    &&& after.roles@ == before.roles@
    &&& after.last_activity == before.last_activity
}

/// Creates the board with no members and the decay clock started at
/// `current_time`.
pub fn initialize(
    ctx: &mut Initialize,
    admin: Pubkey,
    required_token_mint: Pubkey,
    min_token_balance: u64,
    role_thresholds: Vec<u64>,
    current_time: i64,
) -> (r: Result<BoardInitialized, ReputationError>)
    ensures
        old(ctx).reputation_board is Some ==> r == Err::<BoardInitialized, ReputationError>(
            ReputationError::AlreadyInitialized,
        ) && *final(ctx) == *old(ctx),
        old(ctx).reputation_board is None && role_thresholds@.len() > MAX_ROLES ==> r == Err::<
            BoardInitialized,
            ReputationError,
        >(ReputationError::InvalidRoleThreshold) && *final(ctx) == *old(ctx),
        old(ctx).reputation_board is None && role_thresholds@.len() <= MAX_ROLES ==> {
            &&& r == Ok::<BoardInitialized, ReputationError>(
                BoardInitialized { admin, required_token_mint, min_token_balance },
            )
            &&& final(ctx).reputation_board is Some
            &&& final(ctx).reputation_board->0.admin == admin
            &&& final(ctx).reputation_board->0.required_token_mint == required_token_mint
            &&& final(ctx).reputation_board->0.min_token_balance == min_token_balance
            &&& final(ctx).reputation_board->0.role_thresholds@ == role_thresholds@
            &&& final(ctx).reputation_board->0.last_decay_timestamp == current_time
            &&& final(ctx).reputation_board->0.total_members == 0
            &&& final(ctx).reputation_board->0.wf()
        },
{
    if ctx.reputation_board.is_some() {
        return Err(ReputationError::AlreadyInitialized);
    }
    if role_thresholds.len() > MAX_ROLES {
        return Err(ReputationError::InvalidRoleThreshold);
    }
    ctx.reputation_board = Some(
        ReputationBoard {
            admin,
            required_token_mint,
            min_token_balance,
            role_thresholds,
            last_decay_timestamp: current_time,
            total_members: 0,
        },
    );
    Ok(BoardInitialized { admin, required_token_mint, min_token_balance })
}

/// Counts one vote of `ctx.voter` on `target` at `current_time`: checks the
/// voter's token balance, then the cooldown of this voter on this target;
/// moves the target's reputation one step, saturating; restarts the
/// cooldown; and grants the target any role it now earns. Returns the vote's
/// notification, which carries the new reputation, and one notification per
/// granted role.
pub fn vote(ctx: &mut Vote, target: Pubkey, is_upvote: bool, current_time: i64) -> (r: Result<
    (VoteCast, Vec<RoleUnlocked>),
    ReputationError,
>)
    requires
        old(ctx).reputation_board.wf(),
        old(ctx).target_account.wf(),
    ensures
        vote_error(*old(ctx), current_time) is Some ==> {
            &&& r is Err
            &&& r->Err_0 == vote_error(*old(ctx), current_time)->0
            &&& *final(ctx) == *old(ctx)
        },
        vote_error(*old(ctx), current_time) is None ==> {
            let th = old(ctx).reputation_board.role_thresholds@;
            let new_points = vote_step(old(ctx).target_account.reputation_points, is_upvote);
            &&& r is Ok
            &&& r->Ok_0.0 == (VoteCast {
                voter: old(ctx).voter,
                target,
                is_upvote,
                new_reputation: new_points,
            })
            &&& unlock_events(
                r->Ok_0.1@,
                new_grants(th, new_points, old(ctx).target_account.roles@, th.len()),
                old(ctx).target_account.wallet,
                new_points,
            )
            &&& final(ctx).target_account.reputation_points == new_points
            &&& final(ctx).target_account.roles@ == unlock(
                old(ctx).target_account.roles@,
                th,
                new_points,
            )
            &&& final(ctx).target_account.wallet == old(ctx).target_account.wallet
            &&& final(ctx).target_account.last_activity == old(ctx).target_account.last_activity
            &&& final(ctx).target_account.wf()
            &&& final(ctx).vote_cooldown == Some(
                VoteCooldown { voter: old(ctx).voter, target, last_vote_timestamp: current_time },
            )
            &&& final(ctx).reputation_board == old(ctx).reputation_board
            &&& final(ctx).voter_account == old(ctx).voter_account
            &&& final(ctx).voter == old(ctx).voter
            &&& final(ctx).voter_token_balance == old(ctx).voter_token_balance
        },
{
    let voter = ctx.voter;
    if ctx.voter_token_balance < ctx.reputation_board.min_token_balance {
        return Err(ReputationError::InsufficientTokenBalance);
    }
    match &ctx.vote_cooldown {
        Some(cooldown) => {
            let elapsed = current_time as i128 - cooldown.last_vote_timestamp as i128;
            if elapsed < COOLDOWN_PERIOD as i128 {
                return Err(ReputationError::CooldownActive);
            }
        },
        None => {},
    }
    let points = ctx.target_account.reputation_points;
    let new_points = if is_upvote {
        points.saturating_add(1)
    } else {
        points.saturating_sub(1)
    };
    ctx.target_account.reputation_points = new_points;
    ctx.vote_cooldown = Some(VoteCooldown { voter, target, last_vote_timestamp: current_time });
    let unlocked = check_role_unlock(&ctx.reputation_board, &mut ctx.target_account);
    Ok((VoteCast { voter, target, is_upvote, new_reputation: new_points }, unlocked))
}

/// Registers `ctx.user`: a reputation account with no points and no roles,
/// active since `current_time`, and a voter record with no votes. Counts one
/// more member.
pub fn initialize_user(ctx: &mut InitializeUser, current_time: i64) -> (r: Result<
    UserInitialized,
    ReputationError,
>)
    requires
        old(ctx).user_account is None && old(ctx).voter_account is None
            ==> old(ctx).reputation_board.total_members < u64::MAX,
    ensures
        old(ctx).user_account is Some || old(ctx).voter_account is Some ==> {
            &&& r == Err::<UserInitialized, ReputationError>(ReputationError::AlreadyRegistered)
            &&& *final(ctx) == *old(ctx)
        },
        old(ctx).user_account is None && old(ctx).voter_account is None ==> {
            let user = old(ctx).user;
            &&& r == Ok::<UserInitialized, ReputationError>(UserInitialized { wallet: user })
            &&& final(ctx).user_account is Some
            &&& final(ctx).user_account->0.wallet == user
            &&& final(ctx).user_account->0.reputation_points == 0
            &&& final(ctx).user_account->0.roles@ == Seq::<u8>::empty()
            &&& final(ctx).user_account->0.last_activity == current_time
            &&& final(ctx).user_account->0.wf()
            &&& final(ctx).voter_account == Some(
                VoterAccount { wallet: user, total_votes_cast: 0, last_vote_timestamp: 0 },
            )
            &&& final(ctx).reputation_board.total_members == old(
                ctx,
            ).reputation_board.total_members + 1
            &&& final(ctx).reputation_board.admin == old(ctx).reputation_board.admin
            &&& final(ctx).reputation_board.required_token_mint == old(
                ctx,
            ).reputation_board.required_token_mint
            &&& final(ctx).reputation_board.min_token_balance == old(
                ctx,
            ).reputation_board.min_token_balance
            &&& final(ctx).reputation_board.role_thresholds == old(
                ctx,
            ).reputation_board.role_thresholds
            &&& final(ctx).reputation_board.last_decay_timestamp == old(
                ctx,
            ).reputation_board.last_decay_timestamp
            &&& final(ctx).user == user
        },
{
    if ctx.user_account.is_some() || ctx.voter_account.is_some() {
        return Err(ReputationError::AlreadyRegistered);
    }
    let user = ctx.user;
    ctx.user_account = Some(
        UserAccount {
            wallet: user,
            reputation_points: 0,
            roles: Vec::new(),
            last_activity: current_time,
        },
    );
    ctx.voter_account = Some(
        VoterAccount { wallet: user, total_votes_cast: 0, last_vote_timestamp: 0 },
    );
    ctx.reputation_board.total_members = ctx.reputation_board.total_members + 1;
    Ok(UserInitialized { wallet: user })
}

/// Clears every member's score and roles, on the admin's call only. Voter
/// records and cooldowns are not touched.
pub fn admin_reset_all_scores(ctx: &mut AdminResetAllScores) -> (r: Result<
    AllScoresReset,
    ReputationError,
>)
    ensures
        old(ctx).admin != old(ctx).reputation_board.admin ==> {
            &&& r == Err::<AllScoresReset, ReputationError>(ReputationError::UnauthorizedAdmin)
            &&& *final(ctx) == *old(ctx)
        },
        old(ctx).admin == old(ctx).reputation_board.admin ==> {
            &&& r == Ok::<AllScoresReset, ReputationError>(
                AllScoresReset { admin: old(ctx).admin },
            )
            &&& final(ctx).reputation_board == old(ctx).reputation_board
            &&& final(ctx).admin == old(ctx).admin
            &&& final(ctx).user_accounts@.len() == old(ctx).user_accounts@.len()
            &&& forall|i: int|
                0 <= i < old(ctx).user_accounts@.len() ==> #[trigger] is_reset(
                    old(ctx).user_accounts@[i],
                    final(ctx).user_accounts@[i],
                )
        },
{
    if ctx.admin != ctx.reputation_board.admin {
        return Err(ReputationError::UnauthorizedAdmin);
    }
    let ghost before = ctx.user_accounts@;
    let mut i: usize = 0;
    while i < ctx.user_accounts.len()
        invariant
            i <= ctx.user_accounts@.len(),
            ctx.user_accounts@.len() == before.len(),
            ctx.reputation_board == old(ctx).reputation_board,
            ctx.admin == old(ctx).admin,
            before == old(ctx).user_accounts@,
            forall|j: int| 0 <= j < i ==> #[trigger] is_reset(before[j], ctx.user_accounts@[j]),
            forall|j: int| i <= j < before.len() ==> ctx.user_accounts@[j] == before[j],
        decreases before.len() - i,
    {
        let wallet = ctx.user_accounts[i].wallet;
        let last_activity = ctx.user_accounts[i].last_activity;
        ctx.user_accounts.set(
            i,
            UserAccount { wallet, reputation_points: 0, roles: Vec::new(), last_activity },
        );
        i = i + 1;
    }
    Ok(AllScoresReset { admin: ctx.admin })
}

/// `points` after `periods` decay periods. Stops early once nothing is left.
pub fn decay_points(points: u64, periods: u64) -> (r: u64)
    ensures
        r == decayed(points as nat, periods as nat),
{
    let mut p: u64 = points;
    let mut k: u64 = 0;
    while k < periods && p > 0
        invariant
            k <= periods,
            decayed(p as nat, (periods - k) as nat) == decayed(points as nat, periods as nat),
        decreases periods - k,
    {
        let keep = (BASIS_POINTS - DECAY_RATE) as u128;
        let next = (p as u128) * keep / (BASIS_POINTS as u128);
        proof {
            assert((p as nat) * 9000 / 10000 <= p as nat) by (nonlinear_arith);
            assert(decayed(p as nat, (periods - k) as nat) == decayed(
                decay_step(p as nat),
                (periods - (k + 1)) as nat,
            ));
        }
        p = next as u64;
        k = k + 1;
    }
    proof {
        if p == 0 {
            lemma_decayed_zero((periods - k) as nat);
        }
    }
    p
}

/// Nothing decays to nothing.
proof fn lemma_decayed_zero(periods: nat)
    ensures
        decayed(0, periods) == 0,
    decreases periods,
{
    if periods > 0 {
        lemma_decayed_zero((periods - 1) as nat);
    }
}

/// Runs a decay tick at `current_time`, at most once per week: every
/// member's score shrinks by the decay rate once for each full week since
/// the last tick, compounding and rounding down at each step. Roles stay.
pub fn apply_decay(ctx: &mut ApplyDecay, current_time: i64) -> (r: Result<
    DecayApplied,
    ReputationError,
>)
    ensures
        !decay_due(old(ctx).reputation_board.last_decay_timestamp, current_time) ==> {
            &&& r == Err::<DecayApplied, ReputationError>(ReputationError::DecayTooEarly)
            &&& *final(ctx) == *old(ctx)
        },
        decay_due(old(ctx).reputation_board.last_decay_timestamp, current_time) ==> {
            let periods = decay_periods(
                old(ctx).reputation_board.last_decay_timestamp,
                current_time,
            );
            &&& r == Ok::<DecayApplied, ReputationError>(
                DecayApplied { timestamp: current_time, decay_rate: DECAY_RATE },
            )
            &&& final(ctx).reputation_board.last_decay_timestamp == current_time
            &&& final(ctx).reputation_board.admin == old(ctx).reputation_board.admin
            &&& final(ctx).reputation_board.required_token_mint == old(
                ctx,
            ).reputation_board.required_token_mint
            &&& final(ctx).reputation_board.min_token_balance == old(
                ctx,
            ).reputation_board.min_token_balance
            &&& final(ctx).reputation_board.role_thresholds == old(
                ctx,
            ).reputation_board.role_thresholds
            &&& final(ctx).reputation_board.total_members == old(
                ctx,
            ).reputation_board.total_members
            &&& final(ctx).user_accounts@.len() == old(ctx).user_accounts@.len()
            &&& forall|i: int|
                0 <= i < old(ctx).user_accounts@.len() ==> #[trigger] is_decayed(
                    old(ctx).user_accounts@[i],
                    final(ctx).user_accounts@[i],
                    periods,
                )
        },
{
    let elapsed = current_time as i128 - ctx.reputation_board.last_decay_timestamp as i128;
    if elapsed < WEEK_IN_SECONDS as i128 {
        return Err(ReputationError::DecayTooEarly);
    }
    let periods = (elapsed / WEEK_IN_SECONDS as i128) as u64;
    let ghost before = ctx.user_accounts@;
    let mut i: usize = 0;
    while i < ctx.user_accounts.len()
        invariant
            i <= ctx.user_accounts@.len(),
            ctx.user_accounts@.len() == before.len(),
            ctx.reputation_board == old(ctx).reputation_board,
            before == old(ctx).user_accounts@,
            periods as nat == decay_periods(
                old(ctx).reputation_board.last_decay_timestamp,
                current_time,
            ),
            forall|j: int|
                0 <= j < i ==> #[trigger] is_decayed(
                    before[j],
                    ctx.user_accounts@[j],
                    periods as nat,
                ),
            forall|j: int| i <= j < before.len() ==> ctx.user_accounts@[j] == before[j],
        decreases before.len() - i,
    {
        let points = ctx.user_accounts[i].reputation_points;
        ctx.user_accounts[i].reputation_points = decay_points(points, periods);
        i = i + 1;
    }
    ctx.reputation_board.last_decay_timestamp = current_time;
    Ok(DecayApplied { timestamp: current_time, decay_rate: DECAY_RATE })
}

/// Replaces the role thresholds, on the admin's call only. Roles already
/// granted are kept.
pub fn admin_set_role_thresholds(ctx: &mut AdminSetRoleThresholds, new_thresholds: Vec<u64>) -> (r:
    Result<RoleThresholdsUpdated, ReputationError>)
    ensures
        old(ctx).admin != old(ctx).reputation_board.admin ==> {
            &&& r == Err::<RoleThresholdsUpdated, ReputationError>(
                ReputationError::UnauthorizedAdmin,
            )
            &&& *final(ctx) == *old(ctx)
        },
        old(ctx).admin == old(ctx).reputation_board.admin && new_thresholds@.len() > MAX_ROLES
            ==> {
            &&& r == Err::<RoleThresholdsUpdated, ReputationError>(
                ReputationError::InvalidRoleThreshold,
            )
            &&& *final(ctx) == *old(ctx)
        },
        old(ctx).admin == old(ctx).reputation_board.admin && new_thresholds@.len() <= MAX_ROLES
            ==> {
            &&& r == Ok::<RoleThresholdsUpdated, ReputationError>(
                RoleThresholdsUpdated { admin: old(ctx).admin },
            )
            &&& final(ctx).reputation_board.role_thresholds@ == new_thresholds@
            &&& final(ctx).reputation_board.wf()
            &&& final(ctx).reputation_board.admin == old(ctx).reputation_board.admin
            &&& final(ctx).reputation_board.required_token_mint == old(
                ctx,
            ).reputation_board.required_token_mint
            &&& final(ctx).reputation_board.min_token_balance == old(
                ctx,
            ).reputation_board.min_token_balance
            &&& final(ctx).reputation_board.last_decay_timestamp == old(
                ctx,
            ).reputation_board.last_decay_timestamp
            &&& final(ctx).reputation_board.total_members == old(
                ctx,
            ).reputation_board.total_members
            &&& final(ctx).admin == old(ctx).admin
        },
{
    if ctx.admin != ctx.reputation_board.admin {
        return Err(ReputationError::UnauthorizedAdmin);
    }
    if new_thresholds.len() > MAX_ROLES {
        return Err(ReputationError::InvalidRoleThreshold);
    }
    ctx.reputation_board.role_thresholds = new_thresholds;
    Ok(RoleThresholdsUpdated { admin: ctx.admin })
}

} // verus!
