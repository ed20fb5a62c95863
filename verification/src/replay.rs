use vstd::prelude::*;
use crate::error::VaultError;
use crate::principal::Principal;

verus! {

/// The replay counter of one delegating principal.
///
/// A delegated request is valid only if it carries the value stored here, and
/// accepting it advances the value by exactly one, so each signed
/// authorization can be consumed at most once.
#[derive(Clone, Copy, Debug, PartialEq, Eq)]
pub struct UserNonce {
    /// The principal whose authorizations this record sequences.
    pub owner: Principal,
    /// The next nonce that will be accepted; starts at zero.
    pub nonce: u64,
}

/// The verdict on a presented authorization against the stored nonce: the next
/// stored value when it is accepted, and otherwise the reason it is refused.
///
/// The deadline is examined first, then the nonce. A counter that has reached
/// the top of its range accepts nothing more.
pub open spec fn check_spec(stored: u64, presented: u64, deadline: i64, now: i64) -> Result<
    u64,
    VaultError,
> {
    if now > deadline {
        Err(VaultError::DeadlineExpired)
    } else if presented != stored {
        Err(VaultError::NonceMismatch)
    } else if stored == u64::MAX {
        Err(VaultError::ArithmeticOverflow)
    } else {
        Ok((stored + 1) as u64)
    }
}

/// Decides a presented authorization against a stored nonce.
pub fn check(stored: u64, presented: u64, deadline: i64, now: i64) -> (r: Result<u64, VaultError>)
    ensures
        r == check_spec(stored, presented, deadline, now),
{
    if now > deadline {
        Err(VaultError::DeadlineExpired)
    } else if presented != stored {
        Err(VaultError::NonceMismatch)
    } else if stored == u64::MAX {
        Err(VaultError::ArithmeticOverflow)
    } else {
        Ok(stored + 1)
    }
}

impl UserNonce {
    /// A fresh record for `owner`, expecting nonce zero.
    pub fn new(owner: Principal) -> (record: UserNonce)
        ensures
            record.owner == owner,
            record.nonce == 0,
    {
        UserNonce { owner, nonce: 0 }
    }

    /// Accepts the presented nonce if it is the stored one and the deadline
    /// has not passed, and then advances the stored nonce by one.
    ///
    /// Fails with `DeadlineExpired` when `current_time` is past `deadline`,
    /// with `NonceMismatch` when `presented_nonce` differs from the stored
    /// value, and with `ArithmeticOverflow` when the counter is exhausted. A
    /// refused request changes nothing. The exclusive borrow makes the
    /// comparison and the increment one indivisible step.
    pub fn check_and_consume(&mut self, presented_nonce: u64, deadline: i64, current_time: i64) -> (r:
        Result<(), VaultError>)
        ensures
            final(self).owner == old(self).owner,
            match check_spec(old(self).nonce, presented_nonce, deadline, current_time) {
                Ok(next) => r is Ok && final(self).nonce == next,
                Err(e) => r == Err::<(), VaultError>(e) && final(self).nonce == old(self).nonce,
            },
    {
        match check(self.nonce, presented_nonce, deadline, current_time) {
            Ok(next) => {
                self.nonce = next;
                Ok(())
            },
            Err(e) => Err(e),
        }
    }
}

/// The replay counters of all delegating principals, one record for each
/// principal that has ever had an authorization accepted.
#[derive(Debug)]
pub struct ReplayGuard {
    records: Vec<UserNonce>,
}

impl View for ReplayGuard {
    type V = Map<Principal, u64>;

    /// The stored nonce of every principal that has a record.
    closed spec fn view(&self) -> Map<Principal, u64> {
        Map::new(
            |owner: Principal| self.has_record(owner),
            |owner: Principal| self.records@[self.index_of(owner)].nonce,
        )
    }
}

impl ReplayGuard {
    spec fn has_record(&self, owner: Principal) -> bool {
        exists|i: int| 0 <= i < self.records@.len() && #[trigger] self.records@[i].owner == owner
    }

    spec fn index_of(&self, owner: Principal) -> int {
        choose|i: int| 0 <= i < self.records@.len() && #[trigger] self.records@[i].owner == owner
    }

    /// No principal has more than one record.
    pub closed spec fn wf(&self) -> bool {
        forall|i: int, j: int|
            0 <= i < j < self.records@.len() ==> #[trigger] self.records@[i].owner
                != #[trigger] self.records@[j].owner
    }

    /// The nonce that `owner` must present next: the stored value, or zero for
    /// a principal without a record.
    pub open spec fn stored_nonce(&self, owner: Principal) -> u64 {
        if self@.dom().contains(owner) {
            self@[owner]
        } else {
            0
        }
    }

    proof fn lemma_record_at(&self, i: int)
        requires
            self.wf(),
            0 <= i < self.records@.len(),
        ensures
            self@.dom().contains(self.records@[i].owner),
            self@[self.records@[i].owner] == self.records@[i].nonce,
    {
        let owner = self.records@[i].owner;
        assert(self.has_record(owner));
        let k = self.index_of(owner);
        assert(0 <= k < self.records@.len() && self.records@[k].owner == owner);
        assert(k == i);
    }

    /// A guard that has seen no principal.
    pub fn new() -> (guard: ReplayGuard)
        ensures
            guard.wf(),
            guard@ == Map::<Principal, u64>::empty(),
    {
        let guard = ReplayGuard { records: Vec::new() };
        assert(guard@ =~= Map::<Principal, u64>::empty());
        guard
    }

    fn position(&self, owner: &Principal) -> (at: Option<usize>)
        requires
            self.wf(),
        ensures
            match at {
                Some(i) => i < self.records@.len() && self.records@[i as int].owner == *owner,
                None => !self@.dom().contains(*owner),
            },
    {
        let mut i: usize = 0;
        while i < self.records.len()
            invariant
                i <= self.records@.len(),
                forall|j: int| 0 <= j < i ==> self.records@[j].owner != *owner,
            decreases self.records@.len() - i,
        {
            if self.records[i].owner == *owner {
                return Some(i);
            }
            i += 1;
        }
        None
    }

    /// The nonce that `owner` must present next.
    pub fn nonce_of(&self, owner: &Principal) -> (nonce: u64)
        requires
            self.wf(),
        ensures
            nonce == self.stored_nonce(*owner),
    {
        match self.position(owner) {
            Some(i) => {
                proof {
                    self.lemma_record_at(i as int);
                }
                self.records[i].nonce
            },
            None => 0,
        }
    }

    /// Accepts an authorization of `owner` if it carries the stored nonce and
    /// its deadline has not passed, and then advances that owner's stored
    /// nonce by one.
    ///
    /// Fails with `DeadlineExpired` when `current_time` is past `deadline`,
    /// with `NonceMismatch` when `presented_nonce` differs from the stored
    /// value, and with `ArithmeticOverflow` when the counter is exhausted. A
    /// refused request changes nothing, and no request touches the counter of
    /// another principal. A principal's record is created when its first
    /// authorization is accepted. The exclusive borrow makes the comparison
    /// and the increment one indivisible step: of two requests bearing the
    /// same nonce, the second finds the nonce already advanced.
    pub fn check_and_consume(
        &mut self,
        owner: Principal,
        presented_nonce: u64,
        deadline: i64,
        current_time: i64,
    ) -> (r: Result<(), VaultError>)
        requires
            old(self).wf(),
        ensures
            final(self).wf(),
            match check_spec(
                old(self).stored_nonce(owner),
                presented_nonce,
                deadline,
                current_time,
            ) {
                Ok(next) => r is Ok && final(self)@ == old(self)@.insert(owner, next),
                Err(e) => r == Err::<(), VaultError>(e) && final(self)@ == old(self)@,
            },
    {
        let at = self.position(&owner);
        let stored = match at {
            Some(i) => {
                proof {
                    self.lemma_record_at(i as int);
                }
                self.records[i].nonce
            },
            None => 0,
        };
        let next = match check(stored, presented_nonce, deadline, current_time) {
            Ok(next) => next,
            Err(e) => {
                return Err(e);
            },
        };
        let ghost before = *self;
        match at {
            Some(i) => {
                self.records.set(i, UserNonce { owner, nonce: next });
            },
            None => {
                self.records.push(UserNonce { owner, nonce: next });
            },
        }
        proof {
            let slot: int = match at {
                Some(i) => i as int,
                None => before.records@.len() as int,
            };
            assert(self.records@[slot] == (UserNonce { owner, nonce: next }));
            assert forall|k: int| 0 <= k < before.records@.len() && k != slot implies #[trigger] self.records@[k]
                == before.records@[k] by {}
            assert(self.wf()) by {
                assert forall|i: int, j: int| 0 <= i < j < self.records@.len() implies #[trigger] self.records@[i].owner
                    != #[trigger] self.records@[j].owner by {
                    if i != slot && j != slot {
                        assert(before.records@[i].owner != before.records@[j].owner);
                    } else if i == slot {
                        if at is Some {
                            assert(before.records@[i].owner != before.records@[j].owner);
                        }
                    } else {
                        if at is Some {
                            assert(before.records@[i].owner != before.records@[j].owner);
                        } else {
                            assert(before.records@[i].owner != owner);
                        }
                    }
                }
            }
            self.lemma_record_at(slot);
            assert forall|o: Principal| #[trigger] self@.dom().contains(o) <==> before@.insert(
                owner,
                next,
            ).dom().contains(o) by {
                if self.has_record(o) {
                    let k = self.index_of(o);
                    if k != slot {
                        assert(before.records@[k].owner == o);
                    }
                }
                if before.has_record(o) {
                    let k = before.index_of(o);
                    assert(self.records@[k].owner == o);
                }
            }
            assert forall|o: Principal| #[trigger] self@.dom().contains(o) implies self@[o]
                == before@.insert(owner, next)[o] by {
                if o != owner {
                    let k = self.index_of(o);
                    assert(0 <= k < self.records@.len() && self.records@[k].owner == o);
                    assert(k != slot);
                    assert(before.records@[k].owner == o);
                    before.lemma_record_at(k);
                    self.lemma_record_at(k);
                }
            }
            assert(self@ =~= before@.insert(owner, next));
        }
        Ok(())
    }
}

} // verus!
