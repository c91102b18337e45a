//! Board configuration, member accounts, notifications and errors.
use vstd::prelude::*;

use crate::pubkey::Pubkey;

verus! {

/// Minimum time, in seconds, between two votes of one voter on one target.
pub const COOLDOWN_PERIOD: i64 = 86400;

/// Minimum time, in seconds, between two decay ticks.
pub const WEEK_IN_SECONDS: i64 = 604800;

/// Reduction applied per elapsed week, in basis points (10%).
pub const DECAY_RATE: u16 = 1000;

/// One hundred percent, in basis points.
pub const BASIS_POINTS: u16 = 10000;

/// Largest number of role thresholds a board holds.
pub const MAX_ROLES: usize = 10;

/// Global configuration of the board.
#[derive(Clone, Debug)]
pub struct ReputationBoard {
    pub admin: Pubkey,
    pub required_token_mint: Pubkey,
    pub min_token_balance: u64,
    /// Reputation that role `i` asks for, at index `i`.
    pub role_thresholds: Vec<u64>,
    pub last_decay_timestamp: i64,
    pub total_members: u64,
}

impl ReputationBoard {
    /// The threshold list stays within the role capacity.
    pub open spec fn wf(&self) -> bool {
        self.role_thresholds@.len() <= MAX_ROLES
    }

    /// Whether the threshold list stays within the role capacity.
    pub fn is_well_formed(&self) -> (b: bool)
        ensures
            b == self.wf(),
    {
        self.role_thresholds.len() <= MAX_ROLES
    }
}

/// One member's reputation account.
#[derive(Clone, Debug)]
pub struct UserAccount {
    pub wallet: Pubkey,
    pub reputation_points: u64,
    /// Unlocked role indices, in the order they were granted.
    pub roles: Vec<u8>,
    pub last_activity: i64,
}

impl UserAccount {
    /// Role indices are distinct and below the role capacity.
    pub open spec fn wf(&self) -> bool {
        &&& self.roles@.no_duplicates()
        &&& forall|k: int| 0 <= k < self.roles@.len() ==> self.roles@[k] < MAX_ROLES
    }

    /// The set of unlocked role indices.
    pub open spec fn role_set(&self) -> Set<u8> {
        self.roles@.to_set()
    }

    /// Whether role indices are distinct and below the role capacity.
    pub fn is_well_formed(&self) -> (b: bool)
        ensures
            b == self.wf(),
    {
        let n = self.roles.len();
        let mut i: usize = 0;
        while i < n
            invariant
                n == self.roles@.len(),
                i <= n,
                forall|k: int| 0 <= k < i ==> self.roles@[k] < MAX_ROLES,
                forall|k: int, l: int|
                    0 <= k < i && 0 <= l < n && k != l ==> self.roles@[k] != self.roles@[l],
            decreases n - i,
        {
            if self.roles[i] as usize >= MAX_ROLES {
                return false;
            }
            let mut j: usize = 0;
            while j < n
                invariant
                    n == self.roles@.len(),
                    i < n,
                    j <= n,
                    forall|l: int| 0 <= l < j && l != i ==> self.roles@[i as int] != self.roles@[l],
                decreases n - j,
            {
                if j != i && self.roles[j] == self.roles[i] {
                    return false;
                }
                j = j + 1;
            }
            i = i + 1;
        }
        true
    }
}

/// One member's own voting activity.
#[derive(Clone, Copy, Debug)]
pub struct VoterAccount {
    pub wallet: Pubkey,
    pub total_votes_cast: u64,
    pub last_vote_timestamp: i64,
}

/// When `voter` last voted on `target`.
#[derive(Clone, Copy, Debug)]
pub struct VoteCooldown {
    pub voter: Pubkey,
    pub target: Pubkey,
    pub last_vote_timestamp: i64,
}

/// Notification: the board was created.
#[derive(Clone, Copy, Debug)]
pub struct BoardInitialized {
    pub admin: Pubkey,
    pub required_token_mint: Pubkey,
    pub min_token_balance: u64,
}

/// Notification: a vote was counted.
#[derive(Clone, Copy, Debug)]
pub struct VoteCast {
    pub voter: Pubkey,
    pub target: Pubkey,
    pub is_upvote: bool,
    pub new_reputation: u64,
}

/// Notification: a member registered.
#[derive(Clone, Copy, Debug)]
pub struct UserInitialized {
    pub wallet: Pubkey,
}

/// Notification: a member unlocked a role.
#[derive(Clone, Copy, Debug)]
pub struct RoleUnlocked {
    pub wallet: Pubkey,
    pub role_level: u8,
    pub reputation_points: u64,
}

/// Notification: every score was reset.
#[derive(Clone, Copy, Debug)]
pub struct AllScoresReset {
    pub admin: Pubkey,
}

/// Notification: a decay tick ran.
#[derive(Clone, Copy, Debug)]
pub struct DecayApplied {
    pub timestamp: i64,
    pub decay_rate: u16,
}

/// Notification: the role thresholds were replaced.
#[derive(Clone, Copy, Debug)]
pub struct RoleThresholdsUpdated {
    pub admin: Pubkey,
}

/// Why an operation was rejected.
#[derive(Clone, Copy, Debug, PartialEq, Eq, Structural)]
pub enum ReputationError {
    InsufficientTokenBalance,
    CooldownActive,
    UnauthorizedAdmin,
    DecayTooEarly,
    InvalidRoleThreshold,
    AlreadyInitialized,
    AlreadyRegistered,
}

impl ReputationError {
    /// A short human-readable message.
    pub fn message(&self) -> (r: &'static str) {
        match self {
            ReputationError::InsufficientTokenBalance => "Insufficient token balance to vote",
            ReputationError::CooldownActive => "Cooldown period is still active",
            ReputationError::UnauthorizedAdmin => "Unauthorized admin action",
            ReputationError::DecayTooEarly => "Decay can only be applied once per week",
            ReputationError::InvalidRoleThreshold => "Invalid role threshold",
            ReputationError::AlreadyInitialized => "Board is already initialized",
            ReputationError::AlreadyRegistered => "Member is already registered",
        }
    }
}

} // verus!
