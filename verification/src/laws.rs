//! The laws of the loyalty policy, proved once and for all over the spec
//! transitions that the executable operations are proved to implement.
use vstd::prelude::*;

use crate::account::is_fresh;
use crate::account::penalty_step;
use crate::account::redeem_step;
use crate::account::restore_step;
use crate::account::time_reward_step;
use crate::account::track_step;
use crate::account::UserAccount;
use crate::account::REDEMPTION_RATE;
use crate::account::SECONDS_PER_DAY;
use crate::account::SECONDS_PER_WEEK;
use crate::account::WEEKLY_PENALTY_POINTS;
use crate::errors::LoyaltyProgramError;
use crate::governance::is_fresh_proposal;
use crate::governance::vote_step;
use crate::governance::Proposal;
use vstd::arithmetic::div_mod::lemma_basic_div;
use vstd::arithmetic::div_mod::lemma_div_by_multiple;

verus! {

/// Crediting any number of points to a freshly initialized account always
/// succeeds and leaves exactly those points held, with the activity
/// stamped at the crediting time.
pub proof fn lemma_track_fresh_account(
    a: UserAccount,
    user: u64,
    created: i64,
    points: u64,
    now: i64,
)
    requires
        is_fresh(a, user, created),
    ensures
        track_step(a, points, now).1 == Ok::<(), LoyaltyProgramError>(()),
        track_step(a, points, now).0.loyalty_points == points,
        track_step(a, points, now).0.last_activity == now,
{
}

/// Redeeming an account's entire balance succeeds, empties the account,
/// and asks the ledger to mint exactly [`REDEMPTION_RATE`] tokens per
/// point. (Balances large enough that the mint amount would wrap around
/// are refused instead, so they are left out here.)
pub proof fn lemma_redeem_full_balance(a: UserAccount, now: i64)
    requires
        a.loyalty_points * REDEMPTION_RATE <= u64::MAX,
    ensures
        redeem_step(a, a.loyalty_points, now).1 == Ok::<u64, LoyaltyProgramError>(
            (a.loyalty_points * REDEMPTION_RATE) as u64,
        ),
        redeem_step(a, a.loyalty_points, now).0.loyalty_points == 0,
        redeem_step(a, a.loyalty_points, now).0.last_activity == now,
{
}

/// Redeeming more points than the account holds fails with
/// `InsufficientFunds` and leaves the account exactly as it was.
pub proof fn lemma_redeem_shortfall(a: UserAccount, points: u64, now: i64)
    requires
        a.loyalty_points < points,
    ensures
        redeem_step(a, points, now).1 == Err::<u64, LoyaltyProgramError>(
            LoyaltyProgramError::InsufficientFunds,
        ),
        redeem_step(a, points, now).0 == a,
{
}

/// A redemption the ledger later refuses can be rolled back exactly:
/// restoring the debited points at the prior timestamp yields the account
/// from before the redemption, so the debit and the mint form one
/// all-or-nothing unit.
pub proof fn lemma_redeem_rollback(a: UserAccount, points: u64, now: i64)
    requires
        redeem_step(a, points, now).1 is Ok,
    ensures
        restore_step(redeem_step(a, points, now).0, points, a.last_activity).1 == Ok::<
            (),
            LoyaltyProgramError,
        >(()),
        restore_step(redeem_step(a, points, now).0, points, a.last_activity).0 == a,
{
}

/// An absence shorter than one week costs nothing: the penalty leaves the
/// points unchanged and only stamps the activity.
pub proof fn lemma_penalty_short_absence(a: UserAccount, now: i64)
    requires
        a.last_activity <= now,
        now - a.last_activity < SECONDS_PER_WEEK,
    ensures
        penalty_step(a, now).1 == Ok::<(), LoyaltyProgramError>(()),
        penalty_step(a, now).0.loyalty_points == a.loyalty_points,
        penalty_step(a, now).0.last_activity == now,
{
    lemma_basic_div(now - a.last_activity, SECONDS_PER_WEEK as int);
}

/// Exactly two full weeks of absence cost exactly twice the weekly
/// penalty, saturating at zero if the account holds fewer points.
pub proof fn lemma_penalty_two_weeks(a: UserAccount, now: i64)
    requires
        now - a.last_activity == 2 * SECONDS_PER_WEEK,
    ensures
        penalty_step(a, now).1 == Ok::<(), LoyaltyProgramError>(()),
        penalty_step(a, now).0.loyalty_points == if a.loyalty_points >= 2 * WEEKLY_PENALTY_POINTS {
            (a.loyalty_points - 2 * WEEKLY_PENALTY_POINTS) as u64
        } else {
            0u64
        },
{
    lemma_div_by_multiple(2, SECONDS_PER_WEEK as int);
}

/// Exactly three full days of holding earn exactly three points. (An
/// account so full that the credit would wrap around is refused instead,
/// so it is left out here.)
pub proof fn lemma_reward_three_days(a: UserAccount, now: i64)
    requires
        now - a.last_activity == 3 * SECONDS_PER_DAY,
        a.loyalty_points + 3 <= u64::MAX,
    ensures
        time_reward_step(a, now).1 == Ok::<u64, LoyaltyProgramError>(3u64),
        time_reward_step(a, now).0.loyalty_points == a.loyalty_points + 3,
        time_reward_step(a, now).0.last_activity == now,
{
    lemma_div_by_multiple(3, SECONDS_PER_DAY as int);
}

/// The time-based reward earns nothing twice for the same span: right
/// after a successful reward, a second reward at the same time succeeds,
/// adds zero points, and leaves the account as the first reward left it.
pub proof fn lemma_reward_idempotent_within_day(a: UserAccount, now: i64)
    requires
        time_reward_step(a, now).1 is Ok,
    ensures
        time_reward_step(time_reward_step(a, now).0, now).1 == Ok::<u64, LoyaltyProgramError>(0u64),
        time_reward_step(time_reward_step(a, now).0, now).0 == time_reward_step(a, now).0,
{
    let b = time_reward_step(a, now).0;
    lemma_basic_div(0, SECONDS_PER_DAY as int);
    assert(time_reward_step(b, now).0 == b.with_points(b.loyalty_points, now));
    assert(b.with_points(b.loyalty_points, now) == b);
}

/// A vote changes nothing but the chosen tally, which it never decreases,
/// and never touches the description.
pub proof fn lemma_vote_monotonic(p: Proposal, weight: u64, in_favor: bool)
    ensures
        vote_step(p, weight, in_favor).0.votes_for >= p.votes_for,
        vote_step(p, weight, in_favor).0.votes_against >= p.votes_against,
        vote_step(p, weight, in_favor).0.description == p.description,
        in_favor ==> vote_step(p, weight, in_favor).0.votes_against == p.votes_against,
        !in_favor ==> vote_step(p, weight, in_favor).0.votes_for == p.votes_for,
{
}

/// On a fresh proposal, a vote of weight ten in favor followed by a vote
/// of weight five against tallies exactly ten for and five against.
pub proof fn lemma_two_votes_tally(p: Proposal, description: String)
    requires
        is_fresh_proposal(p, description),
    ensures
        vote_step(p, 10, true).1 == Ok::<(), LoyaltyProgramError>(()),
        vote_step(vote_step(p, 10, true).0, 5, false).1 == Ok::<(), LoyaltyProgramError>(()),
        vote_step(vote_step(p, 10, true).0, 5, false).0.votes_for == 10,
        vote_step(vote_step(p, 10, true).0, 5, false).0.votes_against == 5,
{
}

} // verus!
