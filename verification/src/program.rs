//! The program facade: one verified entry point per external call.
//!
//! Each operation validates against stored state, applies the engine's
//! transition, and either returns the domain event for the caller to
//! deliver, or the [`LedgerInstruction`] for the caller to hand to the
//! external token ledger. Validation precedes mutation in every operation:
//! a failed call leaves the stores exactly as they were. The one operation
//! spanning two stores, redemption, debits first and offers a compensating
//! rollback for a refused mint, so the debit and the mint form one
//! all-or-nothing unit.
use vstd::prelude::*;

use crate::account::profile_step;
use crate::account::redeem_step;
use crate::account::referral_step;
use crate::account::restore_step;
use crate::account::time_reward_step;
use crate::account::tokens_step;
use crate::account::track_step;
use crate::account::penalty_step;
use crate::account::is_fresh;
use crate::account::UserAccount;
use crate::errors::LoyaltyProgramError;
use crate::events::EarlyAdopterRewarded;
use crate::events::GovernanceVoted;
use crate::events::LoyaltyPointsTracked;
use crate::events::UserReferred;
use crate::governance::is_fresh_proposal;
use crate::governance::vote_step;
use crate::governance::GovernanceLedger;
use crate::governance::Proposal;
use crate::governance::DESCRIPTION_MAX_LEN;
use crate::ledger::LedgerInstruction;
use crate::ledger::MintConfig;
use crate::ledger::PendingRedemption;
use crate::store::UserAccountStore;

verus! {

/// The whole program state: the mint configuration, the user accounts and
/// the governance ledger.
pub struct LoyaltyProgram {
    /// The token mint's configuration, once the mint has been created.
    pub mint: Option<MintConfig>,
    /// The user account store.
    pub users: UserAccountStore,
    /// The proposal ledger.
    pub governance: GovernanceLedger,
}

/// Neither the mint, nor any account, nor any proposal differs between the
/// two states.
pub open spec fn state_unchanged(pre: LoyaltyProgram, post: LoyaltyProgram) -> bool {
    &&& post.mint == pre.mint
    &&& post.users.accounts@ == pre.users.accounts@
    &&& post.governance.proposals@ == pre.governance.proposals@
}

/// Exactly the account of `user` changed, to `b`; everything else is as it
/// was.
pub open spec fn account_updated(
    pre: LoyaltyProgram,
    post: LoyaltyProgram,
    user: u64,
    b: UserAccount,
) -> bool {
    &&& post.users.holds(user)
    &&& post.users.account_of(user) == b
    &&& forall|u: u64| u != user ==> (post.users.holds(u) <==> pre.users.holds(u))
    &&& forall|u: u64|
        u != user && pre.users.holds(u) ==> post.users.account_of(u) == pre.users.account_of(u)
    &&& post.governance.proposals@ == pre.governance.proposals@
    &&& post.mint == pre.mint
}

/// Exactly the proposal under `key` changed, to `p`; everything else is as
/// it was.
pub open spec fn proposal_updated(
    pre: LoyaltyProgram,
    post: LoyaltyProgram,
    key: u64,
    p: Proposal,
) -> bool {
    &&& post.governance.holds(key)
    &&& post.governance.proposal_of(key) == p
    &&& forall|k: u64| k != key ==> (post.governance.holds(k) <==> pre.governance.holds(k))
    &&& forall|k: u64|
        k != key && pre.governance.holds(k) ==> post.governance.proposal_of(k)
            == pre.governance.proposal_of(k)
    &&& post.users.accounts@ == pre.users.accounts@
    &&& post.mint == pre.mint
}

impl LoyaltyProgram {
    /// Well-formedness of the whole state.
    pub open spec fn wf(self) -> bool {
        &&& self.users.wf()
        &&& self.governance.wf()
    }

    /// A program with no mint, no accounts and no proposals.
    pub fn new() -> (p: LoyaltyProgram)
        ensures
            p.wf(),
            p.mint is None,
            p.users.accounts@.len() == 0,
            p.governance.proposals@.len() == 0,
            forall|u: u64| !p.users.holds(u),
            forall|k: u64| !p.governance.holds(k),
    {
        LoyaltyProgram {
            mint: None,
            users: UserAccountStore::new(),
            governance: GovernanceLedger::new(),
        }
    }

    /// Creates the token mint with `decimals`; fails if it exists. On
    /// success the caller carries the returned instruction to the ledger.
    pub fn initialize(&mut self, decimals: u8) -> (r: Result<
        LedgerInstruction,
        LoyaltyProgramError,
    >)
        requires
            old(self).wf(),
        ensures
            final(self).wf(),
            old(self).mint is Some ==> r == Err::<LedgerInstruction, LoyaltyProgramError>(
                LoyaltyProgramError::AccountAlreadyInitialized,
            ) && *final(self) == *old(self),
            old(self).mint is None ==> {
                &&& r == Ok::<LedgerInstruction, LoyaltyProgramError>(
                    LedgerInstruction::InitializeMint { decimals },
                )
                &&& final(self).mint == Some(MintConfig { decimals })
                &&& final(self).users == old(self).users
                &&& final(self).governance == old(self).governance
            },
    {
        if self.mint.is_some() {
            return Err(LoyaltyProgramError::AccountAlreadyInitialized);
        }
        self.mint = Some(MintConfig { decimals });
        Ok(LedgerInstruction::InitializeMint { decimals })
    }

    /// Creates the account record for `user` at time `now`; fails if one
    /// exists.
    pub fn initialize_user(&mut self, user: u64, now: i64) -> (r: Result<
        (),
        LoyaltyProgramError,
    >)
        requires
            old(self).wf(),
        ensures
            final(self).wf(),
            r is Ok <==> !old(self).users.holds(user),
            old(self).users.holds(user) ==> r == Err::<(), LoyaltyProgramError>(
                LoyaltyProgramError::AccountAlreadyInitialized,
            ) && *final(self) == *old(self),
            !old(self).users.holds(user) ==> {
                &&& final(self).users.holds(user)
                &&& is_fresh(final(self).users.account_of(user), user, now)
                &&& forall|u: u64|
                    u != user ==> (final(self).users.holds(u) <==> old(self).users.holds(u))
                &&& forall|u: u64|
                    u != user && old(self).users.holds(u) ==> final(self).users.account_of(u)
                        == old(self).users.account_of(u)
                &&& final(self).governance == old(self).governance
                &&& final(self).mint == old(self).mint
            },
    {
        self.users.initialize_user(user, now)
    }

    /// Validates a mint of `amount` tokens to `recipient` as an early
    /// adopter reward; the caller carries the instruction to the ledger
    /// and, once it succeeded, delivers the event.
    pub fn reward_early_adopter(&self, recipient: u64, amount: u64) -> (r: Result<
        (LedgerInstruction, EarlyAdopterRewarded),
        LoyaltyProgramError,
    >)
        ensures
            self.mint is None ==> r == Err::<
                (LedgerInstruction, EarlyAdopterRewarded),
                LoyaltyProgramError,
            >(LoyaltyProgramError::AccountNotInitialized),
            self.mint is Some ==> r == Ok::<
                (LedgerInstruction, EarlyAdopterRewarded),
                LoyaltyProgramError,
            >(
                (
                    LedgerInstruction::MintTo { to: recipient, amount },
                    EarlyAdopterRewarded { user: recipient, amount },
                ),
            ),
    {
        if self.mint.is_none() {
            return Err(LoyaltyProgramError::AccountNotInitialized);
        }
        Ok(
            (
                LedgerInstruction::MintTo { to: recipient, amount },
                EarlyAdopterRewarded { user: recipient, amount },
            ),
        )
    }

    /// Credits `points` to `user`'s account at time `now`, as
    /// [`track_step`] says of that account; returns the event to deliver.
    pub fn track_loyalty(&mut self, user: u64, points: u64, now: i64) -> (r: Result<
        LoyaltyPointsTracked,
        LoyaltyProgramError,
    >)
        requires
            old(self).wf(),
        ensures
            final(self).wf(),
            !old(self).users.holds(user) ==> r == Err::<LoyaltyPointsTracked, LoyaltyProgramError>(
                LoyaltyProgramError::AccountNotInitialized,
            ) && *final(self) == *old(self),
            old(self).users.holds(user) ==> ({
                let stepped = track_step(old(self).users.account_of(user), points, now);
                match stepped.1 {
                    Ok(_) => r == Ok::<LoyaltyPointsTracked, LoyaltyProgramError>(
                        LoyaltyPointsTracked { user, points },
                    ) && account_updated(*old(self), *final(self), user, stepped.0),
                    Err(e) => r == Err::<LoyaltyPointsTracked, LoyaltyProgramError>(e)
                        && state_unchanged(*old(self), *final(self)),
                }
            }),
    {
        let idx = match self.users.find(user) {
            Some(i) => i,
            None => {
                return Err(LoyaltyProgramError::AccountNotInitialized);
            },
        };
        let ghost pre = *self;
        proof {
            pre.users.lemma_index_of(user, idx as int);
        }
        let acc = self.users.account_at_mut(idx);
        let res = acc.track(points, now);
        proof {
            let stepped = track_step(pre.users.account_of(user), points, now);
            if res is Ok {
                UserAccountStore::lemma_update_preserves(
                    pre.users,
                    self.users,
                    idx as int,
                    stepped.0,
                );
            } else {
                assert(self.users.accounts@ =~= pre.users.accounts@);
            }
        }
        match res {
            Ok(_) => Ok(LoyaltyPointsTracked { user, points }),
            Err(e) => Err(e),
        }
    }

    /// Creates the zero-tally proposal under `key`; fails if the key is
    /// taken or the description exceeds its bound.
    pub fn create_proposal(&mut self, key: u64, description: String) -> (r: Result<
        (),
        LoyaltyProgramError,
    >)
        requires
            old(self).wf(),
        ensures
            final(self).wf(),
            old(self).governance.holds(key) ==> r == Err::<(), LoyaltyProgramError>(
                LoyaltyProgramError::AccountAlreadyInitialized,
            ) && *final(self) == *old(self),
            !old(self).governance.holds(key) && description@.len() > DESCRIPTION_MAX_LEN ==> r
                == Err::<(), LoyaltyProgramError>(LoyaltyProgramError::FieldTooLong) && *final(self)
                == *old(self),
            !old(self).governance.holds(key) && description@.len() <= DESCRIPTION_MAX_LEN ==> {
                &&& r is Ok
                &&& final(self).governance.holds(key)
                &&& is_fresh_proposal(final(self).governance.proposal_of(key), description)
                &&& forall|k: u64|
                    k != key ==> (final(self).governance.holds(k) <==> old(self).governance.holds(
                        k,
                    ))
                &&& forall|k: u64|
                    k != key && old(self).governance.holds(k) ==> final(self).governance.proposal_of(
                        k,
                    ) == old(self).governance.proposal_of(k)
                &&& final(self).users == old(self).users
                &&& final(self).mint == old(self).mint
            },
    {
        self.governance.create(key, description)
    }

    /// Casts `voter`'s recorded token holdings as voting weight on the
    /// proposal under `proposal`, as [`vote_step`] says of that proposal;
    /// returns the event to deliver.
    pub fn vote(&mut self, proposal: u64, voter: u64, in_favor: bool) -> (r: Result<
        GovernanceVoted,
        LoyaltyProgramError,
    >)
        requires
            old(self).wf(),
        ensures
            final(self).wf(),
            !old(self).governance.holds(proposal) ==> r == Err::<
                GovernanceVoted,
                LoyaltyProgramError,
            >(LoyaltyProgramError::AccountNotInitialized) && *final(self) == *old(self),
            old(self).governance.holds(proposal) && !old(self).users.holds(voter) ==> r == Err::<
                GovernanceVoted,
                LoyaltyProgramError,
            >(LoyaltyProgramError::AccountNotInitialized) && *final(self) == *old(self),
            old(self).governance.holds(proposal) && old(self).users.holds(voter) ==> ({
                let weight = old(self).users.account_of(voter).tokens_held;
                let stepped = vote_step(old(self).governance.proposal_of(proposal), weight, in_favor);
                match stepped.1 {
                    Ok(_) => r == Ok::<GovernanceVoted, LoyaltyProgramError>(
                        GovernanceVoted { proposal, user: voter, in_favor },
                    ) && proposal_updated(*old(self), *final(self), proposal, stepped.0),
                    Err(e) => r == Err::<GovernanceVoted, LoyaltyProgramError>(e)
                        && state_unchanged(*old(self), *final(self)),
                }
            }),
    {
        let pidx = match self.governance.find(proposal) {
            Some(i) => i,
            None => {
                return Err(LoyaltyProgramError::AccountNotInitialized);
            },
        };
        let vidx = match self.users.find(voter) {
            Some(i) => i,
            None => {
                return Err(LoyaltyProgramError::AccountNotInitialized);
            },
        };
        let weight = self.users.account_at(vidx).tokens_held;
        let ghost pre = *self;
        proof {
            pre.users.lemma_index_of(voter, vidx as int);
            pre.governance.lemma_index_of(proposal, pidx as int);
        }
        let prop = self.governance.proposal_at_mut(pidx);
        let res = prop.cast_vote(weight, in_favor);
        proof {
            let stepped = vote_step(pre.governance.proposal_of(proposal), weight, in_favor);
            if res is Ok {
                GovernanceLedger::lemma_update_preserves(
                    pre.governance,
                    self.governance,
                    pidx as int,
                    stepped.0,
                );
            } else {
                assert(self.governance.proposals@ =~= pre.governance.proposals@);
            }
        }
        match res {
            Ok(_) => Ok(GovernanceVoted { proposal, user: voter, in_favor }),
            Err(e) => Err(e),
        }
    }

    /// Debits `points` from `user` at time `now` and returns the pending
    /// redemption: the mint instruction for the caller to carry to the
    /// ledger, and what the rollback needs should the ledger refuse.
    /// Fails, changing nothing, if the mint or the account is missing, the
    /// account holds fewer points, or the mint amount would wrap around.
    pub fn redeem_loyalty(&mut self, user: u64, points: u64, now: i64) -> (r: Result<
        PendingRedemption,
        LoyaltyProgramError,
    >)
        requires
            old(self).wf(),
        ensures
            final(self).wf(),
            old(self).mint is None ==> r == Err::<PendingRedemption, LoyaltyProgramError>(
                LoyaltyProgramError::AccountNotInitialized,
            ) && *final(self) == *old(self),
            old(self).mint is Some && !old(self).users.holds(user) ==> r == Err::<
                PendingRedemption,
                LoyaltyProgramError,
            >(LoyaltyProgramError::AccountNotInitialized) && *final(self) == *old(self),
            old(self).mint is Some && old(self).users.holds(user) ==> ({
                let stepped = redeem_step(old(self).users.account_of(user), points, now);
                match stepped.1 {
                    Ok(amount) => r == Ok::<PendingRedemption, LoyaltyProgramError>(
                        (PendingRedemption {
                            user,
                            points,
                            mint_amount: amount,
                            prior_last_activity: old(self).users.account_of(user).last_activity,
                        }),
                    ) && account_updated(*old(self), *final(self), user, stepped.0),
                    Err(e) => r == Err::<PendingRedemption, LoyaltyProgramError>(e)
                        && state_unchanged(*old(self), *final(self)),
                }
            }),
    {
        if self.mint.is_none() {
            return Err(LoyaltyProgramError::AccountNotInitialized);
        }
        let idx = match self.users.find(user) {
            Some(i) => i,
            None => {
                return Err(LoyaltyProgramError::AccountNotInitialized);
            },
        };
        let prior_last_activity = self.users.account_at(idx).last_activity;
        let ghost pre = *self;
        proof {
            pre.users.lemma_index_of(user, idx as int);
        }
        let acc = self.users.account_at_mut(idx);
        let res = acc.redeem(points, now);
        proof {
            let stepped = redeem_step(pre.users.account_of(user), points, now);
            if res is Ok {
                UserAccountStore::lemma_update_preserves(
                    pre.users,
                    self.users,
                    idx as int,
                    stepped.0,
                );
            } else {
                assert(self.users.accounts@ =~= pre.users.accounts@);
            }
        }
        match res {
            Ok(amount) => Ok(
                PendingRedemption { user, points, mint_amount: amount, prior_last_activity },
            ),
            Err(e) => Err(e),
        }
    }

    /// Rolls the debit of a pending redemption back after the ledger
    /// refused its mint, as [`restore_step`] says of the account.
    pub fn redeem_cancel(&mut self, pending: PendingRedemption) -> (r: Result<
        (),
        LoyaltyProgramError,
    >)
        requires
            old(self).wf(),
        ensures
            final(self).wf(),
            !old(self).users.holds(pending.user) ==> r == Err::<(), LoyaltyProgramError>(
                LoyaltyProgramError::AccountNotInitialized,
            ) && *final(self) == *old(self),
            old(self).users.holds(pending.user) ==> ({
                let stepped = restore_step(
                    old(self).users.account_of(pending.user),
                    pending.points,
                    pending.prior_last_activity,
                );
                match stepped.1 {
                    Ok(_) => r is Ok && account_updated(
                        *old(self),
                        *final(self),
                        pending.user,
                        stepped.0,
                    ),
                    Err(e) => r == Err::<(), LoyaltyProgramError>(e) && state_unchanged(
                        *old(self),
                        *final(self),
                    ),
                }
            }),
    {
        let idx = match self.users.find(pending.user) {
            Some(i) => i,
            None => {
                return Err(LoyaltyProgramError::AccountNotInitialized);
            },
        };
        let ghost pre = *self;
        proof {
            pre.users.lemma_index_of(pending.user, idx as int);
        }
        let acc = self.users.account_at_mut(idx);
        let res = acc.restore(pending.points, pending.prior_last_activity);
        proof {
            let stepped = restore_step(
                pre.users.account_of(pending.user),
                pending.points,
                pending.prior_last_activity,
            );
            if res is Ok {
                UserAccountStore::lemma_update_preserves(
                    pre.users,
                    self.users,
                    idx as int,
                    stepped.0,
                );
            } else {
                assert(self.users.accounts@ =~= pre.users.accounts@);
            }
        }
        res
    }

    /// Validates a burn of `amount` tokens from `source`'s holdings; the
    /// caller carries the instruction to the ledger, whose failure
    /// propagates as the caller's result. No store is touched either way.
    pub fn burn_tokens(&self, source: u64, amount: u64) -> (r: Result<
        LedgerInstruction,
        LoyaltyProgramError,
    >)
        ensures
            self.mint is None ==> r == Err::<LedgerInstruction, LoyaltyProgramError>(
                LoyaltyProgramError::AccountNotInitialized,
            ),
            self.mint is Some ==> r == Ok::<LedgerInstruction, LoyaltyProgramError>(
                LedgerInstruction::Burn { from: source, amount },
            ),
    {
        if self.mint.is_none() {
            return Err(LoyaltyProgramError::AccountNotInitialized);
        }
        Ok(LedgerInstruction::Burn { from: source, amount })
    }

    /// Credits `user` one point per full day since the last activity, as
    /// [`time_reward_step`] says of the account; returns the event to
    /// deliver, carrying the points added.
    pub fn time_based_rewards(&mut self, user: u64, now: i64) -> (r: Result<
        LoyaltyPointsTracked,
        LoyaltyProgramError,
    >)
        requires
            old(self).wf(),
        ensures
            final(self).wf(),
            !old(self).users.holds(user) ==> r == Err::<LoyaltyPointsTracked, LoyaltyProgramError>(
                LoyaltyProgramError::AccountNotInitialized,
            ) && *final(self) == *old(self),
            old(self).users.holds(user) ==> ({
                let stepped = time_reward_step(old(self).users.account_of(user), now);
                match stepped.1 {
                    Ok(days) => r == Ok::<LoyaltyPointsTracked, LoyaltyProgramError>(
                        (LoyaltyPointsTracked { user, points: days }),
                    ) && account_updated(*old(self), *final(self), user, stepped.0),
                    Err(e) => r == Err::<LoyaltyPointsTracked, LoyaltyProgramError>(e)
                        && state_unchanged(*old(self), *final(self)),
                }
            }),
    {
        let idx = match self.users.find(user) {
            Some(i) => i,
            None => {
                return Err(LoyaltyProgramError::AccountNotInitialized);
            },
        };
        let ghost pre = *self;
        proof {
            pre.users.lemma_index_of(user, idx as int);
        }
        let acc = self.users.account_at_mut(idx);
        let res = acc.time_based_reward(now);
        proof {
            let stepped = time_reward_step(pre.users.account_of(user), now);
            if res is Ok {
                UserAccountStore::lemma_update_preserves(
                    pre.users,
                    self.users,
                    idx as int,
                    stepped.0,
                );
            } else {
                assert(self.users.accounts@ =~= pre.users.accounts@);
            }
        }
        match res {
            Ok(days) => Ok(LoyaltyPointsTracked { user, points: days }),
            Err(e) => Err(e),
        }
    }

    /// Credits the fixed referral bonus to `referrer`, as
    /// [`referral_step`] says of the account; returns the event naming the
    /// referred user.
    pub fn refer_user(&mut self, referrer: u64, referred: u64) -> (r: Result<
        UserReferred,
        LoyaltyProgramError,
    >)
        requires
            old(self).wf(),
        ensures
            final(self).wf(),
            !old(self).users.holds(referrer) ==> r == Err::<UserReferred, LoyaltyProgramError>(
                LoyaltyProgramError::AccountNotInitialized,
            ) && *final(self) == *old(self),
            old(self).users.holds(referrer) ==> ({
                let stepped = referral_step(old(self).users.account_of(referrer));
                match stepped.1 {
                    Ok(_) => r == Ok::<UserReferred, LoyaltyProgramError>(
                        (UserReferred { referrer, referred }),
                    ) && account_updated(*old(self), *final(self), referrer, stepped.0),
                    Err(e) => r == Err::<UserReferred, LoyaltyProgramError>(e) && state_unchanged(
                        *old(self),
                        *final(self),
                    ),
                }
            }),
    {
        let idx = match self.users.find(referrer) {
            Some(i) => i,
            None => {
                return Err(LoyaltyProgramError::AccountNotInitialized);
            },
        };
        let ghost pre = *self;
        proof {
            pre.users.lemma_index_of(referrer, idx as int);
        }
        let acc = self.users.account_at_mut(idx);
        let res = acc.referral_bonus();
        proof {
            let stepped = referral_step(pre.users.account_of(referrer));
            if res is Ok {
                UserAccountStore::lemma_update_preserves(
                    pre.users,
                    self.users,
                    idx as int,
                    stepped.0,
                );
            } else {
                assert(self.users.accounts@ =~= pre.users.accounts@);
            }
        }
        match res {
            Ok(_) => Ok(UserReferred { referrer, referred }),
            Err(e) => Err(e),
        }
    }

    /// Debits `user` ten points per full week since the last activity,
    /// saturating at zero, as [`penalty_step`] says of the account.
    pub fn apply_inactivity_penalty(&mut self, user: u64, now: i64) -> (r: Result<
        (),
        LoyaltyProgramError,
    >)
        requires
            old(self).wf(),
        ensures
            final(self).wf(),
            !old(self).users.holds(user) ==> r == Err::<(), LoyaltyProgramError>(
                LoyaltyProgramError::AccountNotInitialized,
            ) && *final(self) == *old(self),
            old(self).users.holds(user) ==> ({
                let stepped = penalty_step(old(self).users.account_of(user), now);
                match stepped.1 {
                    Ok(_) => r is Ok && account_updated(*old(self), *final(self), user, stepped.0),
                    Err(e) => r == Err::<(), LoyaltyProgramError>(e) && state_unchanged(
                        *old(self),
                        *final(self),
                    ),
                }
            }),
    {
        let idx = match self.users.find(user) {
            Some(i) => i,
            None => {
                return Err(LoyaltyProgramError::AccountNotInitialized);
            },
        };
        let ghost pre = *self;
        proof {
            pre.users.lemma_index_of(user, idx as int);
        }
        let acc = self.users.account_at_mut(idx);
        let res = acc.inactivity_penalty(now);
        proof {
            let stepped = penalty_step(pre.users.account_of(user), now);
            if res is Ok {
                UserAccountStore::lemma_update_preserves(
                    pre.users,
                    self.users,
                    idx as int,
                    stepped.0,
                );
            } else {
                assert(self.users.accounts@ =~= pre.users.accounts@);
            }
        }
        res
    }

    /// Overwrites `user`'s profile, as [`profile_step`] says of the
    /// account.
    pub fn update_profile(&mut self, user: u64, name: String, bio: String) -> (r: Result<
        (),
        LoyaltyProgramError,
    >)
        requires
            old(self).wf(),
        ensures
            final(self).wf(),
            !old(self).users.holds(user) ==> r == Err::<(), LoyaltyProgramError>(
                LoyaltyProgramError::AccountNotInitialized,
            ) && *final(self) == *old(self),
            old(self).users.holds(user) ==> ({
                let stepped = profile_step(old(self).users.account_of(user), name, bio);
                match stepped.1 {
                    Ok(_) => r is Ok && account_updated(*old(self), *final(self), user, stepped.0),
                    Err(e) => r == Err::<(), LoyaltyProgramError>(e) && state_unchanged(
                        *old(self),
                        *final(self),
                    ),
                }
            }),
    {
        let idx = match self.users.find(user) {
            Some(i) => i,
            None => {
                return Err(LoyaltyProgramError::AccountNotInitialized);
            },
        };
        let ghost pre = *self;
        let ghost name_snapshot = name;
        let ghost bio_snapshot = bio;
        proof {
            pre.users.lemma_index_of(user, idx as int);
        }
        let acc = self.users.account_at_mut(idx);
        let res = acc.set_profile(name, bio);
        proof {
            let stepped = profile_step(pre.users.account_of(user), name_snapshot, bio_snapshot);
            if res is Ok {
                UserAccountStore::lemma_update_preserves(
                    pre.users,
                    self.users,
                    idx as int,
                    stepped.0,
                );
            } else {
                assert(self.users.accounts@ =~= pre.users.accounts@);
            }
        }
        res
    }

    /// Records a fresh snapshot of `user`'s external token balance, read
    /// later as voting weight, as [`tokens_step`] says of the account.
    pub fn record_token_balance(&mut self, user: u64, balance: u64) -> (r: Result<
        (),
        LoyaltyProgramError,
    >)
        requires
            old(self).wf(),
        ensures
            final(self).wf(),
            !old(self).users.holds(user) ==> r == Err::<(), LoyaltyProgramError>(
                LoyaltyProgramError::AccountNotInitialized,
            ) && *final(self) == *old(self),
            old(self).users.holds(user) ==> r is Ok && account_updated(
                *old(self),
                *final(self),
                user,
                tokens_step(old(self).users.account_of(user), balance),
            ),
    {
        let idx = match self.users.find(user) {
            Some(i) => i,
            None => {
                return Err(LoyaltyProgramError::AccountNotInitialized);
            },
        };
        let ghost pre = *self;
        proof {
            pre.users.lemma_index_of(user, idx as int);
        }
        let acc = self.users.account_at_mut(idx);
        acc.record_tokens(balance);
        proof {
            UserAccountStore::lemma_update_preserves(
                pre.users,
                self.users,
                idx as int,
                tokens_step(pre.users.account_of(user), balance),
            );
        }
        Ok(())
    }

    /// The account of `user`, if one exists.
    pub fn get_account(&self, user: u64) -> (r: Option<&UserAccount>)
        requires
            self.wf(),
        ensures
            match r {
                Some(a) => self.users.holds(user) && *a == self.users.account_of(user),
                None => !self.users.holds(user),
            },
    {
        match self.users.find(user) {
            Some(i) => {
                let a = self.users.account_at(i);
                proof {
                    self.users.lemma_index_of(user, i as int);
                }
                Some(a)
            },
            None => None,
        }
    }

    /// The proposal under `key`, if one exists.
    pub fn get_proposal(&self, key: u64) -> (r: Option<&Proposal>)
        requires
            self.wf(),
        ensures
            match r {
                Some(p) => self.governance.holds(key) && *p == self.governance.proposal_of(key),
                None => !self.governance.holds(key),
            },
    {
        match self.governance.find(key) {
            Some(i) => {
                let p = self.governance.proposal_at(i);
                proof {
                    self.governance.lemma_index_of(key, i as int);
                }
                Some(p)
            },
            None => None,
        }
    }

    /// The mint's configuration, if the mint has been created.
    pub fn mint_config(&self) -> (r: Option<MintConfig>)
        ensures
            r == self.mint,
    {
        self.mint
    }
}

} // verus!
