//! Delegated spending rights: a principal authorizes a delegate to spend up
//! to a limit, and the delegate consumes that allowance piecewise.

use vstd::prelude::*;
use crate::spending_limits::{sat_add, saturating_add_i128};
use crate::table::{PairKey, Table};

verus! {

/// Why a delegation call was rejected.
#[derive(Clone, Copy, PartialEq, Eq, Structural, Debug)]
pub enum DelegationError {
    /// Owner and delegate are the same principal.
    InvalidAddress,
    /// The limit or spend amount is not positive.
    InvalidAmount,
    /// No delegation exists for this owner and delegate.
    Unauthorized,
    /// The spend would push consumption past the delegated limit.
    AmountTooLarge,
}

/// One delegation: the granted limit and how much of it has been spent.
#[derive(Clone, Copy, PartialEq, Eq, Structural, Debug)]
pub struct Delegation {
    pub limit: i128,
    pub spent: i128,
}

/// The contract's persistent key space.
#[derive(Clone, Copy, PartialEq, Eq, Structural, Debug)]
pub enum DelegationDataKey {
    /// Allowance granted by an owner to a delegate.
    Allowance(u64, u64),
}

/// A notification the contract hands to the host's event log.
#[derive(Clone, Copy, PartialEq, Eq, Structural, Debug)]
pub enum DelegationEvent {
    Granted { owner: u64, delegate: u64, limit: i128 },
    Revoked { owner: u64, delegate: u64 },
    Consumed { owner: u64, delegate: u64, amount: i128 },
}

/// The delegation contract's state: allowances keyed by (owner, delegate),
/// plus the emitted notifications.
pub struct DelegationContract {
    allowances: Table<PairKey, Delegation>,
    events: Vec<DelegationEvent>,
}

impl DelegationContract {
    /// The stored allowances, keyed by (owner, delegate).
    pub closed spec fn allowances(&self) -> Map<PairKey, Delegation> {
        self.allowances@
    }

    /// The notifications emitted so far, oldest first.
    pub closed spec fn event_log(&self) -> Seq<DelegationEvent> {
        self.events@
    }

    /// Validity of the state: every stored delegation has a positive limit
    /// and a non-negative consumption.
    pub closed spec fn wf(&self) -> bool {
        &&& self.allowances.wf()
        &&& forall|k: PairKey| #[trigger]
            self.allowances@.contains_key(k) ==> self.allowances@[k].limit > 0
                && self.allowances@[k].spent >= 0
    }

    /// A contract with no delegations and no events.
    pub fn new() -> (r: Self)
        ensures
            r.wf(),
            r.allowances() == Map::<PairKey, Delegation>::empty(),
            r.event_log() == Seq::<DelegationEvent>::empty(),
    {
        DelegationContract { allowances: Table::new(), events: Vec::new() }
    }

    /// Authorizes the delegate to spend up to `limit` on the owner's behalf.
    /// An existing delegation keeps its consumed total; only the limit moves.
    /// Rejected when owner and delegate coincide or the limit is not
    /// positive, changing nothing.
    pub fn set_delegation(&mut self, owner: u64, delegate: u64, limit: i128) -> (r: Result<
        (),
        DelegationError,
    >)
        requires
            old(self).wf(),
        ensures
            final(self).wf(),
            r is Ok <==> owner != delegate && limit > 0,
            owner == delegate ==> r == Err::<(), DelegationError>(DelegationError::InvalidAddress),
            owner != delegate && limit <= 0 ==> r == Err::<(), DelegationError>(
                DelegationError::InvalidAmount,
            ),
            r is Err ==> *final(self) == *old(self),
            r is Ok ==> ({
                let k = PairKey { a: owner, b: delegate };
                let spent0 = if old(self).allowances().contains_key(k) {
                    old(self).allowances()[k].spent
                } else {
                    0
                };
                &&& final(self).allowances() == old(self).allowances().insert(
                    k,
                    Delegation { limit, spent: spent0 },
                )
                &&& final(self).event_log() == old(self).event_log().push(
                    DelegationEvent::Granted { owner, delegate, limit },
                )
            }),
    {
        if owner == delegate {
            return Err(DelegationError::InvalidAddress);
        }
        if limit <= 0 {
            return Err(DelegationError::InvalidAmount);
        }
        let key = PairKey { a: owner, b: delegate };
        let spent = match self.allowances.get(key) {
            Some(d) => d.spent,
            None => 0,
        };
        self.allowances.set(key, Delegation { limit, spent });
        self.events.push(DelegationEvent::Granted { owner, delegate, limit });
        Ok(())
    }

    /// Withdraws the delegate's spending rights; a notification goes out
    /// only when a delegation actually existed.
    pub fn revoke_delegation(&mut self, owner: u64, delegate: u64)
        requires
            old(self).wf(),
        ensures
            final(self).wf(),
            final(self).allowances() == old(self).allowances().remove(
                PairKey { a: owner, b: delegate },
            ),
            final(self).event_log() == (if old(self).allowances().contains_key(
                PairKey { a: owner, b: delegate },
            ) {
                old(self).event_log().push(DelegationEvent::Revoked { owner, delegate })
            } else {
                old(self).event_log()
            }),
    {
        let key = PairKey { a: owner, b: delegate };
        if self.allowances.contains_key(key) {
            self.allowances.remove(key);
            self.events.push(DelegationEvent::Revoked { owner, delegate });
        } else {
            proof {
                assert(self.allowances@ =~= self.allowances@.remove(key));
            }
        }
    }

    /// Consumes part of the delegate's allowance.  The consumed total
    /// accumulates with saturating addition; a spend that would pass the
    /// limit is rejected and changes nothing.
    pub fn consume_allowance(&mut self, owner: u64, delegate: u64, amount: i128) -> (r: Result<
        (),
        DelegationError,
    >)
        requires
            old(self).wf(),
        ensures
            final(self).wf(),
            amount <= 0 <==> r == Err::<(), DelegationError>(DelegationError::InvalidAmount),
            amount > 0 && !old(self).allowances().contains_key(PairKey { a: owner, b: delegate })
                <==> r == Err::<(), DelegationError>(DelegationError::Unauthorized),
            r is Err ==> *final(self) == *old(self),
            amount > 0 && old(self).allowances().contains_key(PairKey { a: owner, b: delegate })
                ==> ({
                let k = PairKey { a: owner, b: delegate };
                let d = old(self).allowances()[k];
                let new_spent = sat_add(d.spent, amount);
                if new_spent > d.limit {
                    r == Err::<(), DelegationError>(DelegationError::AmountTooLarge)
                } else {
                    &&& r is Ok
                    &&& final(self).allowances() == old(self).allowances().insert(
                        k,
                        Delegation { limit: d.limit, spent: new_spent },
                    )
                    &&& final(self).event_log() == old(self).event_log().push(
                        DelegationEvent::Consumed { owner, delegate, amount },
                    )
                }
            }),
    {
        if amount <= 0 {
            return Err(DelegationError::InvalidAmount);
        }
        let key = PairKey { a: owner, b: delegate };
        let delegation = match self.allowances.get(key) {
            Some(d) => *d,
            None => {
                return Err(DelegationError::Unauthorized);
            },
        };
        let new_spent = saturating_add_i128(delegation.spent, amount);
        if new_spent > delegation.limit {
            return Err(DelegationError::AmountTooLarge);
        }
        self.allowances.set(key, Delegation { limit: delegation.limit, spent: new_spent });
        self.events.push(DelegationEvent::Consumed { owner, delegate, amount });
        Ok(())
    }

    /// The delegation granted by the owner to the delegate, if any.
    pub fn get_delegation(&self, owner: u64, delegate: u64) -> (r: Option<Delegation>)
        requires
            self.wf(),
        ensures
            r == (if self.allowances().contains_key(PairKey { a: owner, b: delegate }) {
                Some(self.allowances()[PairKey { a: owner, b: delegate }])
            } else {
                None::<Delegation>
            }),
    {
        match self.allowances.get(PairKey { a: owner, b: delegate }) {
            Some(d) => Some(*d),
            None => None,
        }
    }

    /// The notifications emitted so far, oldest first.
    pub fn events(&self) -> (r: &Vec<DelegationEvent>)
        ensures
            r@ == self.event_log(),
    {
        &self.events
    }
}

} // verus!
