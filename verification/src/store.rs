//! The store of user accounts, keyed by the owning user's identifier.
//!
//! The host environment grants each call the right to read or mutate a
//! record; the store re-expresses that as explicit lookups. Its
//! well-formedness keeps one record per user, so a lookup result is the one
//! record of that user.
use vstd::prelude::*;

use crate::account::is_fresh;
use crate::account::UserAccount;
use crate::errors::LoyaltyProgramError;

verus! {

/// The user account records; create, read and update, never delete.
pub struct UserAccountStore {
    /// The records; `wf` keeps their user identifiers unique.
    pub accounts: Vec<UserAccount>,
}

impl UserAccountStore {
    /// Well-formedness: user identifiers are unique and every record is
    /// well-formed.
    pub open spec fn wf(self) -> bool {
        &&& forall|i: int, j: int|
            0 <= i < j < self.accounts@.len() ==> self.accounts@[i].user
                != self.accounts@[j].user
        &&& forall|i: int| 0 <= i < self.accounts@.len() ==> self.accounts@[i].wf()
    }

    /// Whether a record for `user` exists.
    pub open spec fn holds(self, user: u64) -> bool {
        exists|i: int| 0 <= i < self.accounts@.len() && self.accounts@[i].user == user
    }

    /// The index of the record for `user`; meaningful when `holds(user)`.
    pub open spec fn index_of(self, user: u64) -> int {
        choose|i: int| 0 <= i < self.accounts@.len() && self.accounts@[i].user == user
    }

    /// The record for `user`; meaningful when `holds(user)`.
    pub open spec fn account_of(self, user: u64) -> UserAccount {
        self.accounts@[self.index_of(user)]
    }

    /// Under uniqueness, any index whose record belongs to `user` is the
    /// index the lookup picks.
    pub proof fn lemma_index_of(self, user: u64, i: int)
        requires
            self.wf(),
            0 <= i < self.accounts@.len(),
            self.accounts@[i].user == user,
        ensures
            self.holds(user),
            self.index_of(user) == i,
            self.account_of(user) == self.accounts@[i],
    {
        assert(self.holds(user));
        let j = self.index_of(user);
        if i < j {
            assert(self.accounts@[i].user != self.accounts@[j].user);
        }
        if j < i {
            assert(self.accounts@[j].user != self.accounts@[i].user);
        }
    }

    /// Writing a record back in place, without changing its user, preserves
    /// well-formedness and every other record.
    pub proof fn lemma_update_preserves(pre: UserAccountStore, post: UserAccountStore, i: int, b: UserAccount)
        requires
            pre.wf(),
            0 <= i < pre.accounts@.len(),
            b.user == pre.accounts@[i].user,
            b.wf(),
            post.accounts@ == pre.accounts@.update(i, b),
        ensures
            post.wf(),
            forall|u: u64| post.holds(u) <==> pre.holds(u),
            post.account_of(b.user) == b,
            forall|u: u64|
                u != b.user && pre.holds(u) ==> post.account_of(u) == pre.account_of(u),
    {
        assert(post.wf());
        assert forall|u: u64| post.holds(u) <==> pre.holds(u) by {
            if post.holds(u) {
                let k = post.index_of(u);
                assert(pre.accounts@[k].user == post.accounts@[k].user || k == i);
                if k == i {
                    assert(pre.accounts@[i].user == u);
                }
                assert(pre.holds(u));
            }
            if pre.holds(u) {
                let k = pre.index_of(u);
                assert(post.accounts@[k].user == u || k == i);
                if k == i {
                    assert(post.accounts@[i].user == u);
                }
                assert(post.holds(u));
            }
        }
        post.lemma_index_of(b.user, i);
        assert forall|u: u64|
            u != b.user && pre.holds(u) implies post.account_of(u) == pre.account_of(u) by {
            let k = pre.index_of(u);
            pre.lemma_index_of(u, k);
            assert(k != i);
            post.lemma_index_of(u, k);
        }
    }

    /// Appending a record for a user the store does not hold yet preserves
    /// well-formedness and every existing record.
    pub proof fn lemma_push_preserves(pre: UserAccountStore, post: UserAccountStore, a: UserAccount)
        requires
            pre.wf(),
            !pre.holds(a.user),
            a.wf(),
            post.accounts@ == pre.accounts@.push(a),
        ensures
            post.wf(),
            post.holds(a.user),
            post.account_of(a.user) == a,
            forall|u: u64| u != a.user ==> (post.holds(u) <==> pre.holds(u)),
            forall|u: u64|
                u != a.user && pre.holds(u) ==> post.account_of(u) == pre.account_of(u),
    {
        let n = pre.accounts@.len() as int;
        assert forall|i: int, j: int|
            0 <= i < j < post.accounts@.len() implies post.accounts@[i].user
            != post.accounts@[j].user by {
            if j == n {
                if post.accounts@[i].user == a.user {
                    assert(0 <= i < pre.accounts@.len() && pre.accounts@[i].user == a.user);
                    assert(pre.holds(a.user));
                }
            }
        }
        assert(post.wf());
        post.lemma_index_of(a.user, n);
        assert forall|u: u64| u != a.user implies (post.holds(u) <==> pre.holds(u)) by {
            if post.holds(u) {
                let k = post.index_of(u);
                assert(k != n);
                assert(pre.accounts@[k].user == u);
                assert(pre.holds(u));
            }
            if pre.holds(u) {
                let k = pre.index_of(u);
                assert(post.accounts@[k].user == u);
                assert(post.holds(u));
            }
        }
        assert forall|u: u64|
            u != a.user && pre.holds(u) implies post.account_of(u) == pre.account_of(u) by {
            let k = pre.index_of(u);
            pre.lemma_index_of(u, k);
            post.lemma_index_of(u, k);
        }
    }

    /// An empty store.
    pub fn new() -> (s: UserAccountStore)
        ensures
            s.wf(),
            s.accounts@.len() == 0,
            forall|u: u64| !s.holds(u),
    {
        UserAccountStore { accounts: Vec::new() }
    }

    /// Looks the record of `user` up by a linear scan.
    pub fn find(&self, user: u64) -> (r: Option<usize>)
        ensures
            match r {
                Some(i) => i < self.accounts@.len() && self.accounts@[i as int].user == user,
                None => !self.holds(user),
            },
    {
        let mut i: usize = 0;
        while i < self.accounts.len()
            invariant
                i <= self.accounts@.len(),
                forall|k: int| 0 <= k < i ==> self.accounts@[k].user != user,
            decreases self.accounts@.len() - i,
        {
            if self.accounts[i].user == user {
                return Some(i);
            }
            i = i + 1;
        }
        None
    }

    /// The record at index `i`.
    pub fn account_at(&self, i: usize) -> (a: &UserAccount)
        requires
            i < self.accounts@.len(),
        ensures
            *a == self.accounts@[i as int],
    {
        &self.accounts[i]
    }

    /// Mutable access to the record at index `i`: afterwards the store
    /// holds the old records with the final record written at `i`.
    pub fn account_at_mut(&mut self, i: usize) -> (a: &mut UserAccount)
        requires
            i < old(self).accounts@.len(),
        ensures
            *a == old(self).accounts@[i as int],
            final(self).accounts@ == old(self).accounts@.update(i as int, *final(a)),
    {
        &mut self.accounts[i]
    }

    /// Creates the record for `user` at time `now`; fails if one already
    /// exists, and then changes nothing.
    pub fn initialize_user(&mut self, user: u64, now: i64) -> (r: Result<(), LoyaltyProgramError>)
        requires
            old(self).wf(),
        ensures
            final(self).wf(),
            r is Ok <==> !old(self).holds(user),
            old(self).holds(user) ==> r == Err::<(), LoyaltyProgramError>(
                LoyaltyProgramError::AccountAlreadyInitialized,
            ) && *final(self) == *old(self),
            !old(self).holds(user) ==> {
                &&& final(self).holds(user)
                &&& is_fresh(final(self).account_of(user), user, now)
                &&& forall|u: u64| u != user ==> (final(self).holds(u) <==> old(self).holds(u))
                &&& forall|u: u64|
                    u != user && old(self).holds(u) ==> final(self).account_of(u) == old(
                        self,
                    ).account_of(u)
            },
    {
        match self.find(user) {
            Some(_) => Err(LoyaltyProgramError::AccountAlreadyInitialized),
            None => {
                let a = UserAccount::fresh(user, now);
                let ghost pre = *self;
                self.accounts.push(a);
                proof {
                    UserAccountStore::lemma_push_preserves(pre, *self, self.accounts@.last());
                }
                Ok(())
            },
        }
    }
}

} // verus!
