//! Time-lock escrow: holds an amount of a token for its owner and hands it
//! back only once the lock has matured.
use vstd::prelude::*;

use crate::types::{AccountId, Balance, CallContext, Error, Timestamp, TokenTransfer};

verus! {

/// The record of one lock.
#[derive(Clone, Copy, Debug, PartialEq, Eq, Structural)]
pub struct TimeLockDetails {
    /// The token held in escrow.
    pub token_address: AccountId,
    /// Who gets the tokens back on release.
    pub token_owner: AccountId,
    /// How many units are held.
    pub locked_amount: Balance,
    /// When the lock was made.
    pub start_time: Timestamp,
    /// How long the lock lasts.
    pub duration_time: Timestamp,
}

impl TimeLockDetails {
    /// Whether the lock has matured at `now`: `now >= start_time + duration_time`,
    /// computed without overflow.
    pub open spec fn matured_at(self, now: Timestamp) -> bool {
        now as int >= self.start_time as int + self.duration_time as int
    }
}

/// The escrow: at most one record for each token.
pub struct TokenLock {
    account: AccountId,
    lock_details: Vec<TimeLockDetails>,
}

impl TokenLock {
    /// No two records are for the same token.
    pub closed spec fn wf(&self) -> bool {
        forall|i: int, j: int|
            0 <= i < j < self.lock_details@.len() ==> self.lock_details@[i].token_address
                != self.lock_details@[j].token_address
    }

    /// The account of the escrow, which holds the locked tokens.
    pub closed spec fn account_spec(&self) -> AccountId {
        self.account
    }

    /// The record in force for `token`, if any.
    pub closed spec fn lock_of(&self, token: AccountId) -> Option<TimeLockDetails> {
        if exists|i: int|
            0 <= i < self.lock_details@.len() && self.lock_details@[i].token_address == token {
            Some(
                self.lock_details@[choose|i: int|
                    0 <= i < self.lock_details@.len() && self.lock_details@[i].token_address
                        == token],
            )
        } else {
            None
        }
    }

    proof fn lemma_lock_at(&self, i: int)
        requires
            self.wf(),
            0 <= i < self.lock_details@.len(),
        ensures
            self.lock_of(self.lock_details@[i].token_address) == Some(self.lock_details@[i]),
    {
        let t = self.lock_details@[i].token_address;
        let j = choose|j: int| 0 <= j < self.lock_details@.len() && self.lock_details@[j].token_address == t;
        assert(i == j);
    }

    /// An escrow that holds nothing, at the given account.
    pub fn new(account: AccountId) -> (r: TokenLock)
        ensures
            r.wf(),
            r.account_spec() == account,
            forall|t: AccountId| r.lock_of(t).is_none(),
    {
        TokenLock { account, lock_details: Vec::new() }
    }

    /// The account of the escrow.
    pub fn account(&self) -> (r: AccountId)
        ensures
            r == self.account_spec(),
    {
        self.account
    }

    fn find_lock(&self, token: AccountId) -> (r: Option<usize>)
        ensures
            match r {
                Some(i) => i < self.lock_details@.len() && self.lock_details@[i as int].token_address
                    == token,
                None => forall|i: int|
                    0 <= i < self.lock_details@.len() ==> self.lock_details@[i].token_address
                        != token,
            },
    {
        let mut i: usize = 0;
        while i < self.lock_details.len()
            invariant
                i <= self.lock_details@.len(),
                forall|j: int| 0 <= j < i ==> self.lock_details@[j].token_address != token,
            decreases self.lock_details@.len() - i,
        {
            if self.lock_details[i].token_address == token {
                return Some(i);
            }
            i = i + 1;
        }
        None
    }

    /// The record in force for `token`, if any.
    pub fn get_lock(&self, token: AccountId) -> (r: Option<TimeLockDetails>)
        requires
            self.wf(),
        ensures
            r == self.lock_of(token),
    {
        match self.find_lock(token) {
            Some(i) => {
                proof {
                    self.lemma_lock_at(i as int);
                }
                Some(self.lock_details[i])
            },
            None => None,
        }
    }

    /// Locks `lock_amount` of `token_address` for `token_owner` from now for
    /// `duration_time`, replacing any earlier record for that token. Returns
    /// the transfer that moves the amount from the caller into the escrow.
    pub fn create_lock(
        &mut self,
        ctx: &CallContext,
        token_address: AccountId,
        token_owner: AccountId,
        lock_amount: Balance,
        duration_time: Timestamp,
    ) -> (r: TokenTransfer)
        requires
            old(self).wf(),
        ensures
            final(self).wf(),
            final(self).account_spec() == old(self).account_spec(),
            final(self).lock_of(token_address) == Some(
                TimeLockDetails {
                    token_address,
                    token_owner,
                    locked_amount: lock_amount,
                    start_time: ctx.now,
                    duration_time,
                },
            ),
            forall|t: AccountId| t != token_address ==> final(self).lock_of(t) == old(self).lock_of(t),
            r == (TokenTransfer {
                token: token_address,
                from: ctx.caller,
                to: old(self).account_spec(),
                amount: lock_amount,
            }),
    {
        let details = TimeLockDetails {
            token_address,
            token_owner,
            locked_amount: lock_amount,
            start_time: ctx.now,
            duration_time,
        };
        let ghost before = *self;
        match self.find_lock(token_address) {
            Some(i) => {
                self.lock_details.set(i, details);
                proof {
                    self.lemma_lock_at(i as int);
                    assert forall|t: AccountId| t != token_address implies self.lock_of(t)
                        == before.lock_of(t) by {
                        if exists|k: int|
                            0 <= k < before.lock_details@.len()
                                && before.lock_details@[k].token_address == t {
                            let k = choose|k: int|
                                0 <= k < before.lock_details@.len()
                                    && before.lock_details@[k].token_address == t;
                            before.lemma_lock_at(k);
                            self.lemma_lock_at(k);
                        } else {
                            assert(!exists|k: int|
                                0 <= k < self.lock_details@.len()
                                    && self.lock_details@[k].token_address == t);
                        }
                    }
                }
            },
            None => {
                self.lock_details.push(details);
                proof {
                    let n = before.lock_details@.len() as int;
                    self.lemma_lock_at(n);
                    assert forall|t: AccountId| t != token_address implies self.lock_of(t)
                        == before.lock_of(t) by {
                        if exists|k: int|
                            0 <= k < before.lock_details@.len()
                                && before.lock_details@[k].token_address == t {
                            let k = choose|k: int|
                                0 <= k < before.lock_details@.len()
                                    && before.lock_details@[k].token_address == t;
                            before.lemma_lock_at(k);
                            self.lemma_lock_at(k);
                        } else {
                            assert(!exists|k: int|
                                0 <= k < self.lock_details@.len()
                                    && self.lock_details@[k].token_address == t);
                        }
                    }
                }
            },
        }
        TokenTransfer { token: token_address, from: ctx.caller, to: self.account, amount: lock_amount }
    }

    /// Releases the lock on `token_address` once it has matured, closing its
    /// record, and returns the transfer of the locked amount from the escrow
    /// back to the owner. Fails with `LockNotFound` where no record is in
    /// force and with `LockNotExpired` before `start_time + duration_time`.
    pub fn release_lock(&mut self, ctx: &CallContext, token_address: AccountId) -> (r: Result<
        TokenTransfer,
        Error,
    >)
        requires
            old(self).wf(),
        ensures
            final(self).wf(),
            final(self).account_spec() == old(self).account_spec(),
            old(self).lock_of(token_address).is_none() ==> r == Err::<TokenTransfer, Error>(
                Error::LockNotFound,
            ),
            old(self).lock_of(token_address).is_some() && !old(self).lock_of(
                token_address,
            ).unwrap().matured_at(ctx.now) ==> r == Err::<TokenTransfer, Error>(
                Error::LockNotExpired,
            ),
            r.is_err() ==> *final(self) == *old(self),
            old(self).lock_of(token_address).is_some() && old(self).lock_of(
                token_address,
            ).unwrap().matured_at(ctx.now) ==> {
                let d = old(self).lock_of(token_address).unwrap();
                &&& r == Ok::<TokenTransfer, Error>(
                    TokenTransfer {
                        token: token_address,
                        from: old(self).account_spec(),
                        to: d.token_owner,
                        amount: d.locked_amount,
                    },
                )
                &&& final(self).lock_of(token_address).is_none()
                &&& forall|t: AccountId|
                    t != token_address ==> final(self).lock_of(t) == old(self).lock_of(t)
            },
    {
        let i = match self.find_lock(token_address) {
            Some(i) => i,
            None => return Err(Error::LockNotFound),
        };
        proof {
            self.lemma_lock_at(i as int);
        }
        let details = self.lock_details[i];
        let matured = match details.start_time.checked_add(details.duration_time) {
            Some(end) => end <= ctx.now,
            None => false,
        };
        if !matured {
            return Err(Error::LockNotExpired);
        }
        let ghost before = *self;
        self.lock_details.remove(i);
        proof {
            assert forall|a: int, b: int|
                0 <= a < b < self.lock_details@.len() implies self.lock_details@[a].token_address
                != self.lock_details@[b].token_address by {
                let a0 = if a < i { a } else { a + 1 };
                let b0 = if b < i { b } else { b + 1 };
                assert(self.lock_details@[a] == before.lock_details@[a0]);
                assert(self.lock_details@[b] == before.lock_details@[b0]);
            }
            assert(!exists|k: int|
                0 <= k < self.lock_details@.len() && self.lock_details@[k].token_address
                    == token_address) by {
                assert forall|k: int| 0 <= k < self.lock_details@.len() implies self.lock_details@[k].token_address
                    != token_address by {
                    let k0 = if k < i { k } else { k + 1 };
                    assert(self.lock_details@[k] == before.lock_details@[k0]);
                }
            }
            assert forall|t: AccountId| t != token_address implies self.lock_of(t)
                == before.lock_of(t) by {
                if exists|k: int|
                    0 <= k < before.lock_details@.len() && before.lock_details@[k].token_address
                        == t {
                    let k = choose|k: int|
                        0 <= k < before.lock_details@.len()
                            && before.lock_details@[k].token_address == t;
                    before.lemma_lock_at(k);
                    let k1 = if k < i { k } else { k - 1 };
                    assert(self.lock_details@[k1] == before.lock_details@[k]);
                    self.lemma_lock_at(k1);
                } else {
                    assert forall|k: int| 0 <= k < self.lock_details@.len() implies self.lock_details@[k].token_address
                        != t by {
                        let k0 = if k < i { k } else { k + 1 };
                        assert(self.lock_details@[k] == before.lock_details@[k0]);
                    }
                }
            }
        }
        Ok(
            TokenTransfer {
                token: token_address,
                from: self.account,
                to: details.token_owner,
                amount: details.locked_amount,
            },
        )
    }
}

} // verus!
