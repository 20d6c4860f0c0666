//! User accounts and the loyalty policy engine.
//!
//! Every state transition of an account is first written down as a spec
//! function (`*_step`); the executable methods are then proved to return
//! exactly that transition. The policy constants (conversion rate, bonus,
//! penalty, bounds) are named here rather than spread as literals.
use vstd::prelude::*;

use crate::errors::LoyaltyProgramError;
use vstd::string::StrSliceExecFns;

verus! {

/// Seconds in a day: one loyalty point accrues per full day held.
pub const SECONDS_PER_DAY: u64 = 86400;

/// Seconds in a week: the unit of the inactivity penalty.
pub const SECONDS_PER_WEEK: u64 = 604800;

/// Loyalty points deducted per full week of inactivity.
pub const WEEKLY_PENALTY_POINTS: u64 = 10;

/// Tokens minted per loyalty point redeemed.
pub const REDEMPTION_RATE: u64 = 100;

/// Loyalty points credited to a referrer per referral.
pub const REFERRAL_BONUS_POINTS: u64 = 100;

/// Longest accepted profile name, in characters.
pub const NAME_MAX_LEN: usize = 100;

/// Longest accepted profile bio, in characters.
pub const BIO_MAX_LEN: usize = 200;

/// Loyalty tier assigned to a newly created account.
pub const INITIAL_TIER: u8 = 1;

/// One user's record in the loyalty program.
#[derive(Debug)]
pub struct UserAccount {
    /// The owning user's public identifier; immutable after creation and
    /// unique within a store.
    pub user: u64,
    /// Loyalty points held; debits are pre-checked or saturating, so this
    /// never underflows.
    pub loyalty_points: u64,
    /// Unix timestamp of the last points or activity operation.
    pub last_activity: i64,
    /// The user's loyalty tier.
    pub loyalty_tier: u8,
    /// Informational snapshot of the user's external token balance, read as
    /// voting weight.
    pub tokens_held: u64,
    /// Profile name, at most [`NAME_MAX_LEN`] characters.
    pub name: String,
    /// Profile bio, at most [`BIO_MAX_LEN`] characters.
    pub bio: String,
}

impl UserAccount {
    /// Well-formedness: the profile text stays within its bounds.
    pub open spec fn wf(self) -> bool {
        self.name@.len() <= NAME_MAX_LEN && self.bio@.len() <= BIO_MAX_LEN
    }

    /// The same account with `points` and `last` in place of the loyalty
    /// points and the activity timestamp.
    pub open spec fn with_points(self, points: u64, last: i64) -> UserAccount {
        UserAccount { loyalty_points: points, last_activity: last, ..self }
    }
}

/// A record exactly as account initialization creates it for `user` at
/// time `now`.
pub open spec fn is_fresh(a: UserAccount, user: u64, now: i64) -> bool {
    &&& a.user == user
    &&& a.loyalty_points == 0
    &&& a.last_activity == now
    &&& a.loyalty_tier == INITIAL_TIER
    &&& a.tokens_held == 0
    &&& a.name@ == Seq::<char>::empty()
    &&& a.bio@ == Seq::<char>::empty()
}

/// Points earned for the span from `last` to `now`: one per full day,
/// truncated.
pub open spec fn reward_points(last: i64, now: i64) -> int {
    (now - last) / (SECONDS_PER_DAY as int)
}

/// Penalty for the span from `last` to `now`: ten points per full week,
/// truncated.
pub open spec fn penalty_points(last: i64, now: i64) -> int {
    ((now - last) / (SECONDS_PER_WEEK as int)) * (WEEKLY_PENALTY_POINTS as int)
}

/// Crediting `points` at time `now`: fails on 64-bit wraparound, otherwise
/// adds the points and records the activity.
pub open spec fn track_step(a: UserAccount, points: u64, now: i64) -> (UserAccount, Result<
    (),
    LoyaltyProgramError,
>) {
    if a.loyalty_points + points > u64::MAX {
        (a, Err(LoyaltyProgramError::Overflow))
    } else {
        (a.with_points((a.loyalty_points + points) as u64, now), Ok(()))
    }
}

/// The time-based reward at `now`: fails on a clock running backwards,
/// otherwise credits one point per full day since the last activity.
pub open spec fn time_reward_step(a: UserAccount, now: i64) -> (UserAccount, Result<
    u64,
    LoyaltyProgramError,
>) {
    if now < a.last_activity {
        (a, Err(LoyaltyProgramError::ClockSkew))
    } else if a.loyalty_points + reward_points(a.last_activity, now) > u64::MAX {
        (a, Err(LoyaltyProgramError::Overflow))
    } else {
        (
            a.with_points((a.loyalty_points + reward_points(a.last_activity, now)) as u64, now),
            Ok(reward_points(a.last_activity, now) as u64),
        )
    }
}

/// The inactivity penalty at `now`: fails on a clock running backwards,
/// otherwise debits ten points per full week since the last activity,
/// saturating at zero.
pub open spec fn penalty_step(a: UserAccount, now: i64) -> (UserAccount, Result<
    (),
    LoyaltyProgramError,
>) {
    if now < a.last_activity {
        (a, Err(LoyaltyProgramError::ClockSkew))
    } else {
        let penalty = penalty_points(a.last_activity, now);
        let remaining = if a.loyalty_points >= penalty {
            (a.loyalty_points - penalty) as u64
        } else {
            0u64
        };
        (a.with_points(remaining, now), Ok(()))
    }
}

/// Redeeming `points` at time `now`: fails if the account holds fewer
/// points, or if the mint amount would wrap around; otherwise debits the
/// points and yields the token amount to mint, at [`REDEMPTION_RATE`]
/// tokens per point.
pub open spec fn redeem_step(a: UserAccount, points: u64, now: i64) -> (UserAccount, Result<
    u64,
    LoyaltyProgramError,
>) {
    if a.loyalty_points < points {
        (a, Err(LoyaltyProgramError::InsufficientFunds))
    } else if points * REDEMPTION_RATE > u64::MAX {
        (a, Err(LoyaltyProgramError::Overflow))
    } else {
        (
            a.with_points((a.loyalty_points - points) as u64, now),
            Ok((points * REDEMPTION_RATE) as u64),
        )
    }
}

/// The referral bonus: credits [`REFERRAL_BONUS_POINTS`] to the referrer,
/// failing only on wraparound; the activity timestamp is left alone.
pub open spec fn referral_step(a: UserAccount) -> (UserAccount, Result<
    (),
    LoyaltyProgramError,
>) {
    if a.loyalty_points + REFERRAL_BONUS_POINTS > u64::MAX {
        (a, Err(LoyaltyProgramError::Overflow))
    } else {
        (a.with_points((a.loyalty_points + REFERRAL_BONUS_POINTS) as u64, a.last_activity), Ok(()))
    }
}

/// The compensating rollback of a redemption: re-credits the debited points
/// and restores the prior activity timestamp.
pub open spec fn restore_step(a: UserAccount, points: u64, last: i64) -> (UserAccount, Result<
    (),
    LoyaltyProgramError,
>) {
    if a.loyalty_points + points > u64::MAX {
        (a, Err(LoyaltyProgramError::Overflow))
    } else {
        (a.with_points((a.loyalty_points + points) as u64, last), Ok(()))
    }
}

/// Overwriting the profile: fails if either text exceeds its bound,
/// otherwise replaces name and bio.
pub open spec fn profile_step(a: UserAccount, name: String, bio: String) -> (UserAccount, Result<
    (),
    LoyaltyProgramError,
>) {
    if name@.len() > NAME_MAX_LEN || bio@.len() > BIO_MAX_LEN {
        (a, Err(LoyaltyProgramError::FieldTooLong))
    } else {
        (UserAccount { name, bio, ..a }, Ok(()))
    }
}

/// Recording a fresh snapshot of the user's external token balance.
pub open spec fn tokens_step(a: UserAccount, balance: u64) -> UserAccount {
    UserAccount { tokens_held: balance, ..a }
}

impl UserAccount {
    /// A freshly initialized account for `user` at time `now`: no points,
    /// the initial tier, an empty profile.
    pub fn fresh(user: u64, now: i64) -> (a: UserAccount)
        ensures
            a.user == user,
            a.loyalty_points == 0,
            a.last_activity == now,
            a.loyalty_tier == INITIAL_TIER,
            a.tokens_held == 0,
            a.name@ == Seq::<char>::empty(),
            a.bio@ == Seq::<char>::empty(),
            a.wf(),
    {
        UserAccount {
            user,
            loyalty_points: 0,
            last_activity: now,
            loyalty_tier: INITIAL_TIER,
            tokens_held: 0,
            name: String::new(),
            bio: String::new(),
        }
    }

    /// Credits `points` and records the activity, exactly as
    /// [`track_step`] says.
    pub fn track(&mut self, points: u64, now: i64) -> (r: Result<(), LoyaltyProgramError>)
        ensures
            *final(self) == track_step(*old(self), points, now).0,
            r == track_step(*old(self), points, now).1,
    {
        match self.loyalty_points.checked_add(points) {
            Some(total) => {
                self.loyalty_points = total;
                self.last_activity = now;
                Ok(())
            },
            None => Err(LoyaltyProgramError::Overflow),
        }
    }

    /// Credits one point per full day since the last activity, exactly as
    /// [`time_reward_step`] says, and returns the points added.
    pub fn time_based_reward(&mut self, now: i64) -> (r: Result<u64, LoyaltyProgramError>)
        ensures
            *final(self) == time_reward_step(*old(self), now).0,
            r == time_reward_step(*old(self), now).1,
    {
        if now < self.last_activity {
            return Err(LoyaltyProgramError::ClockSkew);
        }
        let elapsed_wide: i128 = now as i128 - self.last_activity as i128;
        let elapsed: u64 = elapsed_wide as u64;
        let days: u64 = elapsed / SECONDS_PER_DAY;
        match self.loyalty_points.checked_add(days) {
            Some(total) => {
                self.loyalty_points = total;
                self.last_activity = now;
                Ok(days)
            },
            None => Err(LoyaltyProgramError::Overflow),
        }
    }

    /// Debits ten points per full week since the last activity, saturating
    /// at zero, exactly as [`penalty_step`] says.
    pub fn inactivity_penalty(&mut self, now: i64) -> (r: Result<(), LoyaltyProgramError>)
        ensures
            *final(self) == penalty_step(*old(self), now).0,
            r == penalty_step(*old(self), now).1,
    {
        if now < self.last_activity {
            return Err(LoyaltyProgramError::ClockSkew);
        }
        let elapsed_wide: i128 = now as i128 - self.last_activity as i128;
        let elapsed: u64 = elapsed_wide as u64;
        let weeks: u64 = elapsed / SECONDS_PER_WEEK;
        proof {
            vstd::arithmetic::div_mod::lemma_div_is_ordered(
                elapsed as int,
                u64::MAX as int,
                SECONDS_PER_WEEK as int,
            );
        }
        let penalty: u64 = weeks * WEEKLY_PENALTY_POINTS;
        if self.loyalty_points >= penalty {
            self.loyalty_points = self.loyalty_points - penalty;
        } else {
            self.loyalty_points = 0;
        }
        self.last_activity = now;
        Ok(())
    }

    /// Debits `points` and yields the token amount to mint, exactly as
    /// [`redeem_step`] says.
    pub fn redeem(&mut self, points: u64, now: i64) -> (r: Result<u64, LoyaltyProgramError>)
        ensures
            *final(self) == redeem_step(*old(self), points, now).0,
            r == redeem_step(*old(self), points, now).1,
    {
        if self.loyalty_points < points {
            return Err(LoyaltyProgramError::InsufficientFunds);
        }
        match points.checked_mul(REDEMPTION_RATE) {
            Some(amount) => {
                self.loyalty_points = self.loyalty_points - points;
                self.last_activity = now;
                Ok(amount)
            },
            None => Err(LoyaltyProgramError::Overflow),
        }
    }

    /// Credits the fixed referral bonus, exactly as [`referral_step`] says.
    pub fn referral_bonus(&mut self) -> (r: Result<(), LoyaltyProgramError>)
        ensures
            *final(self) == referral_step(*old(self)).0,
            r == referral_step(*old(self)).1,
    {
        match self.loyalty_points.checked_add(REFERRAL_BONUS_POINTS) {
            Some(total) => {
                self.loyalty_points = total;
                Ok(())
            },
            None => Err(LoyaltyProgramError::Overflow),
        }
    }

    /// Rolls a redemption back, exactly as [`restore_step`] says.
    pub fn restore(&mut self, points: u64, last_activity: i64) -> (r: Result<
        (),
        LoyaltyProgramError,
    >)
        ensures
            *final(self) == restore_step(*old(self), points, last_activity).0,
            r == restore_step(*old(self), points, last_activity).1,
    {
        match self.loyalty_points.checked_add(points) {
            Some(total) => {
                self.loyalty_points = total;
                self.last_activity = last_activity;
                Ok(())
            },
            None => Err(LoyaltyProgramError::Overflow),
        }
    }

    /// Overwrites the profile, exactly as [`profile_step`] says.
    pub fn set_profile(&mut self, name: String, bio: String) -> (r: Result<
        (),
        LoyaltyProgramError,
    >)
        ensures
            *final(self) == profile_step(*old(self), name, bio).0,
            r == profile_step(*old(self), name, bio).1,
    {
        let name_len = name.as_str().unicode_len();
        let bio_len = bio.as_str().unicode_len();
        if name_len > NAME_MAX_LEN || bio_len > BIO_MAX_LEN {
            return Err(LoyaltyProgramError::FieldTooLong);
        }
        self.name = name;
        self.bio = bio;
        Ok(())
    }

    /// Records a fresh snapshot of the user's external token balance, as
    /// [`tokens_step`] says.
    pub fn record_tokens(&mut self, balance: u64)
        ensures
            *final(self) == tokens_step(*old(self), balance),
    {
        self.tokens_held = balance;
    }
}

} // verus!
