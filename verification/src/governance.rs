//! Proposals and the governance vote ledger.
//!
//! A proposal's description is immutable once created; the tallies only
//! grow, each vote adding the voter's recorded token holdings to exactly
//! one side. No record of who voted is kept: recasting is possible and
//! unbounded, as the program has no double-vote guard.
use vstd::prelude::*;

use crate::errors::LoyaltyProgramError;
use vstd::string::StrSliceExecFns;

verus! {

/// Longest accepted proposal description, in characters.
pub const DESCRIPTION_MAX_LEN: usize = 256;

/// One governance proposal with its running tallies.
#[derive(Debug)]
pub struct Proposal {
    /// What is being voted on; immutable after creation, at most
    /// [`DESCRIPTION_MAX_LEN`] characters.
    pub description: String,
    /// Total voting weight cast in favor.
    pub votes_for: u64,
    /// Total voting weight cast against.
    pub votes_against: u64,
}

impl Proposal {
    /// Well-formedness: the description stays within its bound.
    pub open spec fn wf(self) -> bool {
        self.description@.len() <= DESCRIPTION_MAX_LEN
    }
}

/// A proposal exactly as creation makes it: the given description and
/// zero tallies.
pub open spec fn is_fresh_proposal(p: Proposal, description: String) -> bool {
    &&& p.description == description
    &&& p.votes_for == 0
    &&& p.votes_against == 0
}

/// Casting `weight` on one side: fails on 64-bit wraparound of that side's
/// tally, otherwise adds the weight to it; the other side and the
/// description are untouched.
pub open spec fn vote_step(p: Proposal, weight: u64, in_favor: bool) -> (Proposal, Result<
    (),
    LoyaltyProgramError,
>) {
    if in_favor {
        if p.votes_for + weight > u64::MAX {
            (p, Err(LoyaltyProgramError::Overflow))
        } else {
            (Proposal { votes_for: (p.votes_for + weight) as u64, ..p }, Ok(()))
        }
    } else {
        if p.votes_against + weight > u64::MAX {
            (p, Err(LoyaltyProgramError::Overflow))
        } else {
            (Proposal { votes_against: (p.votes_against + weight) as u64, ..p }, Ok(()))
        }
    }
}

impl Proposal {
    /// Adds `weight` to one tally, exactly as [`vote_step`] says.
    pub fn cast_vote(&mut self, weight: u64, in_favor: bool) -> (r: Result<
        (),
        LoyaltyProgramError,
    >)
        ensures
            *final(self) == vote_step(*old(self), weight, in_favor).0,
            r == vote_step(*old(self), weight, in_favor).1,
    {
        if in_favor {
            match self.votes_for.checked_add(weight) {
                Some(total) => {
                    self.votes_for = total;
                    Ok(())
                },
                None => Err(LoyaltyProgramError::Overflow),
            }
        } else {
            match self.votes_against.checked_add(weight) {
                Some(total) => {
                    self.votes_against = total;
                    Ok(())
                },
                None => Err(LoyaltyProgramError::Overflow),
            }
        }
    }
}

/// The proposal records, keyed by a unique proposal identifier.
pub struct GovernanceLedger {
    /// Pairs of a proposal key and its record; `wf` keeps the keys unique.
    pub proposals: Vec<(u64, Proposal)>,
}

impl GovernanceLedger {
    /// Well-formedness: proposal keys are unique and every record is
    /// well-formed.
    pub open spec fn wf(self) -> bool {
        &&& forall|i: int, j: int|
            0 <= i < j < self.proposals@.len() ==> self.proposals@[i].0 != self.proposals@[j].0
        &&& forall|i: int| 0 <= i < self.proposals@.len() ==> self.proposals@[i].1.wf()
    }

    /// Whether a record for `key` exists.
    pub open spec fn holds(self, key: u64) -> bool {
        exists|i: int| 0 <= i < self.proposals@.len() && self.proposals@[i].0 == key
    }

    /// The index of the record for `key`; meaningful when `holds(key)`.
    pub open spec fn index_of(self, key: u64) -> int {
        choose|i: int| 0 <= i < self.proposals@.len() && self.proposals@[i].0 == key
    }

    /// The proposal for `key`; meaningful when `holds(key)`.
    pub open spec fn proposal_of(self, key: u64) -> Proposal {
        self.proposals@[self.index_of(key)].1
    }

    /// Under uniqueness, any index whose record carries `key` is the index
    /// the lookup picks.
    pub proof fn lemma_index_of(self, key: u64, i: int)
        requires
            self.wf(),
            0 <= i < self.proposals@.len(),
            self.proposals@[i].0 == key,
        ensures
            self.holds(key),
            self.index_of(key) == i,
            self.proposal_of(key) == self.proposals@[i].1,
    {
        assert(self.holds(key));
        let j = self.index_of(key);
        if i < j {
            assert(self.proposals@[i].0 != self.proposals@[j].0);
        }
        if j < i {
            assert(self.proposals@[j].0 != self.proposals@[i].0);
        }
    }

    /// Writing a proposal back under its key preserves well-formedness and
    /// every other record.
    pub proof fn lemma_update_preserves(pre: GovernanceLedger, post: GovernanceLedger, i: int, p: Proposal)
        requires
            pre.wf(),
            0 <= i < pre.proposals@.len(),
            p.wf(),
            post.proposals@ == pre.proposals@.update(i, (pre.proposals@[i].0, p)),
        ensures
            post.wf(),
            forall|k: u64| post.holds(k) <==> pre.holds(k),
            post.proposal_of(pre.proposals@[i].0) == p,
            forall|k: u64|
                k != pre.proposals@[i].0 && pre.holds(k) ==> post.proposal_of(k)
                    == pre.proposal_of(k),
    {
        let key = pre.proposals@[i].0;
        assert(post.wf());
        assert forall|k: u64| post.holds(k) <==> pre.holds(k) by {
            if post.holds(k) {
                let m = post.index_of(k);
                assert(pre.proposals@[m].0 == post.proposals@[m].0 || m == i);
                if m == i {
                    assert(pre.proposals@[i].0 == k);
                }
                assert(pre.holds(k));
            }
            if pre.holds(k) {
                let m = pre.index_of(k);
                assert(post.proposals@[m].0 == k || m == i);
                if m == i {
                    assert(post.proposals@[i].0 == k);
                }
                assert(post.holds(k));
            }
        }
        post.lemma_index_of(key, i);
        assert forall|k: u64|
            k != key && pre.holds(k) implies post.proposal_of(k) == pre.proposal_of(k) by {
            let m = pre.index_of(k);
            pre.lemma_index_of(k, m);
            assert(m != i);
            post.lemma_index_of(k, m);
        }
    }

    /// Appending a record under a key the ledger does not hold yet
    /// preserves well-formedness and every existing record.
    pub proof fn lemma_push_preserves(pre: GovernanceLedger, post: GovernanceLedger, key: u64, p: Proposal)
        requires
            pre.wf(),
            !pre.holds(key),
            p.wf(),
            post.proposals@ == pre.proposals@.push((key, p)),
        ensures
            post.wf(),
            post.holds(key),
            post.proposal_of(key) == p,
            forall|k: u64| k != key ==> (post.holds(k) <==> pre.holds(k)),
            forall|k: u64|
                k != key && pre.holds(k) ==> post.proposal_of(k) == pre.proposal_of(k),
    {
        let n = pre.proposals@.len() as int;
        assert forall|i: int, j: int|
            0 <= i < j < post.proposals@.len() implies post.proposals@[i].0
            != post.proposals@[j].0 by {
            if j == n {
                if post.proposals@[i].0 == key {
                    assert(0 <= i < pre.proposals@.len() && pre.proposals@[i].0 == key);
                    assert(pre.holds(key));
                }
            }
        }
        assert(post.wf());
        post.lemma_index_of(key, n);
        assert forall|k: u64| k != key implies (post.holds(k) <==> pre.holds(k)) by {
            if post.holds(k) {
                let m = post.index_of(k);
                assert(m != n);
                assert(pre.proposals@[m].0 == k);
                assert(pre.holds(k));
            }
            if pre.holds(k) {
                let m = pre.index_of(k);
                assert(post.proposals@[m].0 == k);
                assert(post.holds(k));
            }
        }
        assert forall|k: u64|
            k != key && pre.holds(k) implies post.proposal_of(k) == pre.proposal_of(k) by {
            let m = pre.index_of(k);
            pre.lemma_index_of(k, m);
            post.lemma_index_of(k, m);
        }
    }

    /// An empty ledger.
    pub fn new() -> (g: GovernanceLedger)
        ensures
            g.wf(),
            g.proposals@.len() == 0,
            forall|k: u64| !g.holds(k),
    {
        GovernanceLedger { proposals: Vec::new() }
    }

    /// Looks the record of `key` up by a linear scan.
    pub fn find(&self, key: u64) -> (r: Option<usize>)
        ensures
            match r {
                Some(i) => i < self.proposals@.len() && self.proposals@[i as int].0 == key,
                None => !self.holds(key),
            },
    {
        let mut i: usize = 0;
        while i < self.proposals.len()
            invariant
                i <= self.proposals@.len(),
                forall|k: int| 0 <= k < i ==> self.proposals@[k].0 != key,
            decreases self.proposals@.len() - i,
        {
            if self.proposals[i].0 == key {
                return Some(i);
            }
            i = i + 1;
        }
        None
    }

    /// The proposal at index `i`.
    pub fn proposal_at(&self, i: usize) -> (p: &Proposal)
        requires
            i < self.proposals@.len(),
        ensures
            *p == self.proposals@[i as int].1,
    {
        &self.proposals[i].1
    }

    /// Mutable access to the proposal at index `i`: afterwards the ledger
    /// holds the old records with the final proposal written under its
    /// unchanged key at `i`.
    pub fn proposal_at_mut(&mut self, i: usize) -> (p: &mut Proposal)
        requires
            i < old(self).proposals@.len(),
        ensures
            *p == old(self).proposals@[i as int].1,
            final(self).proposals@ == old(self).proposals@.update(
                i as int,
                (old(self).proposals@[i as int].0, *final(p)),
            ),
    {
        &mut self.proposals[i].1
    }

    /// Creates the zero-tally record for `key`; fails if one already
    /// exists or the description exceeds its bound, and then changes
    /// nothing.
    pub fn create(&mut self, key: u64, description: String) -> (r: Result<
        (),
        LoyaltyProgramError,
    >)
        requires
            old(self).wf(),
        ensures
            final(self).wf(),
            old(self).holds(key) ==> r == Err::<(), LoyaltyProgramError>(
                LoyaltyProgramError::AccountAlreadyInitialized,
            ) && *final(self) == *old(self),
            !old(self).holds(key) && description@.len() > DESCRIPTION_MAX_LEN ==> r == Err::<
                (),
                LoyaltyProgramError,
            >(LoyaltyProgramError::FieldTooLong) && *final(self) == *old(self),
            !old(self).holds(key) && description@.len() <= DESCRIPTION_MAX_LEN ==> {
                &&& r is Ok
                &&& final(self).holds(key)
                &&& is_fresh_proposal(final(self).proposal_of(key), description)
                &&& forall|k: u64| k != key ==> (final(self).holds(k) <==> old(self).holds(k))
                &&& forall|k: u64|
                    k != key && old(self).holds(k) ==> final(self).proposal_of(k) == old(
                        self,
                    ).proposal_of(k)
            },
    {
        match self.find(key) {
            Some(_) => Err(LoyaltyProgramError::AccountAlreadyInitialized),
            None => {
                if description.as_str().unicode_len() > DESCRIPTION_MAX_LEN {
                    return Err(LoyaltyProgramError::FieldTooLong);
                }
                let p = Proposal { description, votes_for: 0, votes_against: 0 };
                let ghost pre = *self;
                let ghost fresh = p;
                self.proposals.push((key, p));
                proof {
                    GovernanceLedger::lemma_push_preserves(pre, *self, key, fresh);
                }
                Ok(())
            },
        }
    }
}

} // verus!
