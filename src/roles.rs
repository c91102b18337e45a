//! Role unlocking: a member earns role `i` once their reputation reaches
//! the board's threshold for `i`, and keeps it from then on.
use vstd::prelude::*;

use crate::pubkey::Pubkey;
use crate::state::{ReputationBoard, RoleUnlocked, UserAccount, MAX_ROLES};

verus! {

/// The roles newly granted when thresholds `0 .. n` are scanned in order
/// against reputation `rep`, for a member already holding `held`.
pub open spec fn new_grants(th: Seq<u64>, rep: u64, held: Seq<u8>, n: nat) -> Seq<u8>
    decreases n,
{
    if n == 0 {
        seq![]
    } else {
        let prev = new_grants(th, rep, held, (n - 1) as nat);
        let i = (n - 1) as u8;
        if rep >= th[n - 1] && !held.contains(i) {
            prev.push(i)
        } else {
            prev
        }
    }
}

/// The role list after one evaluation against every threshold.
pub open spec fn unlock(roles: Seq<u8>, th: Seq<u64>, rep: u64) -> Seq<u8> {
    roles + new_grants(th, rep, roles, th.len())
}

/// The notification for each role in `grants`.
pub open spec fn unlock_events(
    events: Seq<RoleUnlocked>,
    grants: Seq<u8>,
    wallet: Pubkey,
    rep: u64,
) -> bool {
    &&& events.len() == grants.len()
    &&& forall|k: int|
        0 <= k < events.len() ==> events[k] == (RoleUnlocked {
            wallet: wallet,
            role_level: grants[k],
            reputation_points: rep,
        })
}

proof fn lemma_grants_below(th: Seq<u64>, rep: u64, held: Seq<u8>, n: nat)
    requires
        n <= MAX_ROLES,
    ensures
        forall|k: int|
            0 <= k < new_grants(th, rep, held, n).len() ==> new_grants(th, rep, held, n)[k] < n,
        forall|k: int|
            0 <= k < new_grants(th, rep, held, n).len() ==> !held.contains(
                new_grants(th, rep, held, n)[k],
            ),
        new_grants(th, rep, held, n).no_duplicates(),
    decreases n,
{
    if n > 0 {
        lemma_grants_below(th, rep, held, (n - 1) as nat);
    }
}

/// Every index whose threshold is met is held afterwards.
proof fn lemma_grants_cover(th: Seq<u64>, rep: u64, held: Seq<u8>, n: nat)
    requires
        n <= th.len(),
        n <= MAX_ROLES,
    ensures
        forall|i: int|
            0 <= i < n && rep >= th[i] ==> (held + new_grants(th, rep, held, n)).contains(
                i as u8,
            ),
    decreases n,
{
    if n > 0 {
        lemma_grants_cover(th, rep, held, (n - 1) as nat);
        let prev = new_grants(th, rep, held, (n - 1) as nat);
        let cur = new_grants(th, rep, held, n);
        assert forall|i: int| 0 <= i < n && rep >= th[i] implies (held + cur).contains(
            i as u8,
        ) by {
            if i < n - 1 {
                let w = choose|w: int| 0 <= w < (held + prev).len() && (held + prev)[w] == i as u8;
                assert((held + cur)[w] == i as u8);
            } else if held.contains(i as u8) {
                let w = choose|w: int| 0 <= w < held.len() && held[w] == i as u8;
                assert((held + cur)[w] == i as u8);
            } else {
                assert((held + cur)[held.len() + prev.len() as int] == i as u8);
            }
        }
    }
}

/// Scanning against a list that already holds every earned role grants nothing.
proof fn lemma_no_grants_when_covered(th: Seq<u64>, rep: u64, held: Seq<u8>, n: nat)
    requires
        n <= th.len(),
        n <= MAX_ROLES,
        forall|i: int| 0 <= i < n && rep >= th[i] ==> held.contains(i as u8),
    ensures
        new_grants(th, rep, held, n) == Seq::<u8>::empty(),
    decreases n,
{
    if n > 0 {
        lemma_no_grants_when_covered(th, rep, held, (n - 1) as nat);
    }
}

/// Roles are sticky: every role held before an evaluation is held after it.
pub proof fn lemma_unlock_keeps_roles(roles: Seq<u8>, th: Seq<u64>, rep: u64)
    ensures
        forall|r: u8| roles.contains(r) ==> unlock(roles, th, rep).contains(r),
        unlock(roles, th, rep).subrange(0, roles.len() as int) == roles,
{
    assert forall|r: u8| roles.contains(r) implies unlock(roles, th, rep).contains(r) by {
        let w = choose|w: int| 0 <= w < roles.len() && roles[w] == r;
        assert(unlock(roles, th, rep)[w] == r);
    }
    assert(unlock(roles, th, rep).subrange(0, roles.len() as int) =~= roles);
}

/// An evaluation grants exactly the roles whose threshold the reputation
/// meets and that were not yet held.
pub proof fn lemma_unlock_role_set(roles: Seq<u8>, th: Seq<u64>, rep: u64)
    requires
        th.len() <= MAX_ROLES,
    ensures
        forall|r: u8|
            #![trigger unlock(roles, th, rep).contains(r)]
            unlock(roles, th, rep).contains(r) <==> (roles.contains(r) || (r < th.len()
                && rep >= th[r as int])),
{
    let g = new_grants(th, rep, roles, th.len());
    lemma_grants_cover(th, rep, roles, th.len());
    lemma_grants_below(th, rep, roles, th.len());
    lemma_grants_met(th, rep, roles, th.len());
    assert forall|r: u8| #[trigger] unlock(roles, th, rep).contains(r) implies (roles.contains(r)
        || (r < th.len() && rep >= th[r as int])) by {
        let w = choose|w: int| 0 <= w < (roles + g).len() && (roles + g)[w] == r;
        if w >= roles.len() {
            assert(g[w - roles.len()] == r);
        } else {
            assert(roles[w] == r);
        }
    }
    assert forall|r: u8| (roles.contains(r) || (r < th.len() && rep >= th[r as int])) implies #[trigger] unlock(roles, th, rep).contains(r) by {
        if roles.contains(r) {
            lemma_unlock_keeps_roles(roles, th, rep);
        } else {
            assert((r as int) as u8 == r);
        }
    }
}

/// Every granted role has its threshold met.
proof fn lemma_grants_met(th: Seq<u64>, rep: u64, held: Seq<u8>, n: nat)
    requires
        n <= th.len(),
        n <= MAX_ROLES,
    ensures
        forall|k: int|
            0 <= k < new_grants(th, rep, held, n).len() ==> rep >= th[new_grants(
                th,
                rep,
                held,
                n,
            )[k] as int],
    decreases n,
{
    if n > 0 {
        lemma_grants_met(th, rep, held, (n - 1) as nat);
        let prev = new_grants(th, rep, held, (n - 1) as nat);
        let cur = new_grants(th, rep, held, n);
        assert(((n - 1) as u8) as int == n - 1);
        assert forall|k: int| 0 <= k < cur.len() implies rep >= th[cur[k] as int] by {
            if k < prev.len() {
                assert(cur[k] == prev[k]);
            }
        }
    }
}

/// Evaluating twice with unchanged reputation and thresholds grants nothing
/// the second time, so no role is granted or announced twice.
pub proof fn lemma_unlock_idempotent(roles: Seq<u8>, th: Seq<u64>, rep: u64)
    requires
        th.len() <= MAX_ROLES,
    ensures
        new_grants(th, rep, unlock(roles, th, rep), th.len()) == Seq::<u8>::empty(),
        unlock(unlock(roles, th, rep), th, rep) == unlock(roles, th, rep),
{
    lemma_grants_cover(th, rep, roles, th.len());
    lemma_no_grants_when_covered(th, rep, unlock(roles, th, rep), th.len());
    assert(unlock(unlock(roles, th, rep), th, rep) =~= unlock(roles, th, rep));
}

/// Whether `roles` holds role `r`.
fn holds_role(roles: &Vec<u8>, r: u8) -> (b: bool)
    ensures
        b == roles@.contains(r),
{
    let mut i: usize = 0;
    while i < roles.len()
        invariant
            i <= roles@.len(),
            forall|k: int| 0 <= k < i ==> roles@[k] != r,
        decreases roles@.len() - i,
    {
        if roles[i] == r {
            return true;
        }
        i = i + 1;
    }
    false
}

/// Grants the member every role whose threshold their reputation meets and
/// that they do not hold yet, scanning thresholds in index order, and
/// returns one notification per granted role, in that order.
pub fn check_role_unlock(board: &ReputationBoard, user_account: &mut UserAccount) -> (events: Vec<
    RoleUnlocked,
>)
    requires
        board.wf(),
        old(user_account).wf(),
    ensures
        final(user_account).wf(),
        final(user_account).roles@ == unlock(
            old(user_account).roles@,
            board.role_thresholds@,
            old(user_account).reputation_points,
        ),
        final(user_account).wallet == old(user_account).wallet,
        final(user_account).reputation_points == old(user_account).reputation_points,
        final(user_account).last_activity == old(user_account).last_activity,
        unlock_events(
            events@,
            new_grants(
                board.role_thresholds@,
                old(user_account).reputation_points,
                old(user_account).roles@,
                board.role_thresholds@.len(),
            ),
            old(user_account).wallet,
            old(user_account).reputation_points,
        ),
{
    let ghost th = board.role_thresholds@;
    let ghost held = user_account.roles@;
    let current_reputation = user_account.reputation_points;
    let mut events: Vec<RoleUnlocked> = Vec::new();
    let mut role_level: usize = 0;
    while role_level < board.role_thresholds.len()
        invariant
            th == board.role_thresholds@,
            th.len() <= MAX_ROLES,
            role_level <= th.len(),
            user_account.wf(),
            user_account.roles@ == held + new_grants(th, current_reputation, held, role_level as nat),
            user_account.wallet == old(user_account).wallet,
            user_account.reputation_points == current_reputation,
            current_reputation == old(user_account).reputation_points,
            user_account.last_activity == old(user_account).last_activity,
            held == old(user_account).roles@,
            unlock_events(
                events@,
                new_grants(th, current_reputation, held, role_level as nat),
                old(user_account).wallet,
                current_reputation,
            ),
        decreases th.len() - role_level,
    {
        let threshold = board.role_thresholds[role_level];
        let level = role_level as u8;
        proof {
            lemma_grants_below(th, current_reputation, held, role_level as nat);
            let g = new_grants(th, current_reputation, held, role_level as nat);
            if (held + g).contains(level) && !held.contains(level) {
                let w = choose|w: int| 0 <= w < (held + g).len() && (held + g)[w] == level;
                assert(g[w - held.len()] == level);
            }
            if held.contains(level) {
                let w = choose|w: int| 0 <= w < held.len() && held[w] == level;
                assert((held + g)[w] == level);
            }
        }
        if current_reputation >= threshold && !holds_role(&user_account.roles, level) {
            user_account.roles.push(level);
            events.push(
                RoleUnlocked {
                    wallet: user_account.wallet,
                    role_level: level,
                    reputation_points: current_reputation,
                },
            );
        }
        role_level = role_level + 1;
        proof {
            let g2 = new_grants(th, current_reputation, held, role_level as nat);
            assert(user_account.roles@ =~= held + g2);
        }
    }
    events
}

} // verus!
