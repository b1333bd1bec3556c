//! Recurring payments: fixed amounts transferred from a sender to a
//! recipient on a fixed interval.  The contract owns the schedule; the token
//! movement itself is the host's work, so executing a payment returns the
//! transfer to perform.

use vstd::prelude::*;
use vstd::arithmetic::div_mod::{lemma_fundamental_div_mod, lemma_mod_bound};
use crate::table::Table;

verus! {

/// Why a recurring-payment call was rejected.
#[derive(Clone, Copy, PartialEq, Eq, Structural, Debug)]
pub enum RecurringPaymentError {
    /// The payment amount is not positive.
    InvalidAmount,
    /// The interval is zero.
    InvalidInterval,
    /// No payment exists under the id.
    NotFound,
    /// The payment has been canceled.
    Inactive,
    /// The next execution time has not been reached yet.
    TooEarly,
}

/// One payment schedule.
#[derive(Clone, Copy, PartialEq, Eq, Structural, Debug)]
pub struct RecurringPayment {
    pub sender: u64,
    pub recipient: u64,
    pub token: u64,
    pub amount: i128,
    pub interval: u64,
    pub next_execution: u64,
    pub active: bool,
}

/// A token movement the host must perform on the contract's behalf.
#[derive(Clone, Copy, PartialEq, Eq, Structural, Debug)]
pub struct TokenTransfer {
    pub token: u64,
    pub from: u64,
    pub to: u64,
    pub amount: i128,
}

/// A notification the contract hands to the host's event log.
#[derive(Clone, Copy, PartialEq, Eq, Structural, Debug)]
pub enum RecurringEvent {
    Created { payment_id: u64, sender: u64 },
    Executed { payment_id: u64, amount: i128, next_execution: u64 },
    Canceled { payment_id: u64, sender: u64 },
}

/// The schedule time after one execution at ledger time `now`: one interval
/// past the old schedule, and when even that lies in the past, advanced to
/// the next clean interval boundary strictly after `now`.
pub open spec fn next_execution_after(next0: u64, interval: u64, now: u64) -> int {
    if next0 + interval > now {
        next0 + interval
    } else {
        next0 + interval + ((now - (next0 + interval)) / (interval as int) + 1) * interval
    }
}

/// The recurring-payment contract's state: schedules by id, the id counter,
/// and the emitted notifications.
pub struct RecurringPaymentContract {
    payment_count: u64,
    payments: Table<u64, RecurringPayment>,
    events: Vec<RecurringEvent>,
}

impl RecurringPaymentContract {
    /// How many payments have been created; also the last assigned id.
    pub closed spec fn payment_count(&self) -> u64 {
        self.payment_count
    }

    /// The stored schedules, by id.
    pub closed spec fn payments(&self) -> Map<u64, RecurringPayment> {
        self.payments@
    }

    /// The notifications emitted so far, oldest first.
    pub closed spec fn event_log(&self) -> Seq<RecurringEvent> {
        self.events@
    }

    /// Validity of the state: every stored schedule has a positive amount
    /// and a positive interval.
    pub closed spec fn wf(&self) -> bool {
        &&& self.payments.wf()
        &&& forall|id: u64| #[trigger]
            self.payments@.contains_key(id) ==> self.payments@[id].amount > 0
                && self.payments@[id].interval > 0
    }

    /// A contract with no schedules and no events.
    pub fn new() -> (r: Self)
        ensures
            r.wf(),
            r.payment_count() == 0,
            r.payments() == Map::<u64, RecurringPayment>::empty(),
            r.event_log() == Seq::<RecurringEvent>::empty(),
    {
        RecurringPaymentContract { payment_count: 0, payments: Table::new(), events: Vec::new() }
    }

    /// Creates a new payment schedule and returns its id; ids are assigned
    /// sequentially from 1.  The amount must be positive and the interval
    /// non-zero, else the call is rejected and changes nothing.
    pub fn create_payment(
        &mut self,
        sender: u64,
        recipient: u64,
        token: u64,
        amount: i128,
        interval: u64,
        start_time: u64,
    ) -> (r: Result<u64, RecurringPaymentError>)
        requires
            old(self).wf(),
            old(self).payment_count() < u64::MAX,
        ensures
            final(self).wf(),
            amount <= 0 <==> r == Err::<u64, RecurringPaymentError>(
                RecurringPaymentError::InvalidAmount,
            ),
            amount > 0 && interval == 0 <==> r == Err::<u64, RecurringPaymentError>(
                RecurringPaymentError::InvalidInterval,
            ),
            r is Err ==> *final(self) == *old(self),
            r is Ok ==> ({
                let id = old(self).payment_count() + 1;
                &&& r->Ok_0 == id
                &&& final(self).payment_count() == id
                &&& final(self).payments() == old(self).payments().insert(
                    id as u64,
                    RecurringPayment {
                        sender,
                        recipient,
                        token,
                        amount,
                        interval,
                        next_execution: start_time,
                        active: true,
                    },
                )
                &&& final(self).event_log() == old(self).event_log().push(
                    RecurringEvent::Created { payment_id: id as u64, sender },
                )
            }),
    {
        if amount <= 0 {
            return Err(RecurringPaymentError::InvalidAmount);
        }
        if interval == 0 {
            return Err(RecurringPaymentError::InvalidInterval);
        }
        let count = self.payment_count + 1;
        let payment = RecurringPayment {
            sender,
            recipient,
            token,
            amount,
            interval,
            next_execution: start_time,
            active: true,
        };
        self.payments.set(count, payment);
        self.payment_count = count;
        self.events.push(RecurringEvent::Created { payment_id: count, sender });
        Ok(count)
    }

    /// Executes one due payment: hands back the token transfer the host must
    /// perform and advances the schedule to the next interval boundary
    /// strictly after `now`.  Rejected — changing nothing — when the id is
    /// unknown, the payment is canceled, or its time has not come.
    pub fn execute_payment(&mut self, payment_id: u64, now: u64) -> (r: Result<
        TokenTransfer,
        RecurringPaymentError,
    >)
        requires
            old(self).wf(),
            old(self).payments().contains_key(payment_id) ==> old(
                self,
            ).payments()[payment_id].interval <= u64::MAX - now,
        ensures
            final(self).wf(),
            !old(self).payments().contains_key(payment_id) <==> r == Err::<
                TokenTransfer,
                RecurringPaymentError,
            >(RecurringPaymentError::NotFound),
            old(self).payments().contains_key(payment_id)
                && !old(self).payments()[payment_id].active <==> r == Err::<
                TokenTransfer,
                RecurringPaymentError,
            >(RecurringPaymentError::Inactive),
            old(self).payments().contains_key(payment_id) && old(
                self,
            ).payments()[payment_id].active && now < old(self).payments()[payment_id].next_execution
                <==> r == Err::<TokenTransfer, RecurringPaymentError>(
                RecurringPaymentError::TooEarly,
            ),
            r is Err ==> *final(self) == *old(self),
            r is Ok ==> ({
                let p = old(self).payments()[payment_id];
                let new_next = next_execution_after(p.next_execution, p.interval, now);
                &&& r->Ok_0 == (TokenTransfer {
                    token: p.token,
                    from: p.sender,
                    to: p.recipient,
                    amount: p.amount,
                })
                &&& new_next > now
                &&& new_next <= now + p.interval
                &&& final(self).payments() == old(self).payments().insert(
                    payment_id,
                    RecurringPayment { next_execution: new_next as u64, ..p },
                )
                &&& final(self).payment_count() == old(self).payment_count()
                &&& final(self).event_log() == old(self).event_log().push(
                    RecurringEvent::Executed {
                        payment_id,
                        amount: p.amount,
                        next_execution: new_next as u64,
                    },
                )
            }),
    {
        let payment = match self.payments.get(payment_id) {
            Some(p) => *p,
            None => {
                return Err(RecurringPaymentError::NotFound);
            },
        };
        if !payment.active {
            return Err(RecurringPaymentError::Inactive);
        }
        if now < payment.next_execution {
            return Err(RecurringPaymentError::TooEarly);
        }

        let transfer = TokenTransfer {
            token: payment.token,
            from: payment.sender,
            to: payment.recipient,
            amount: payment.amount,
        };

        let first = payment.next_execution + payment.interval;
        let new_next: u64 = if first <= now {
            let diff = now - first;
            let intervals_passed = diff / payment.interval;
            proof {
                let q = diff as int / payment.interval as int;
                let i = payment.interval as int;
                lemma_fundamental_div_mod(diff as int, i);
                lemma_mod_bound(diff as int, i);
                assert(i * q <= diff as int);
                assert((q + 1) * i == i * q + i) by (nonlinear_arith);
            }
            first + (intervals_passed + 1) * payment.interval
        } else {
            first
        };

        let updated = RecurringPayment { next_execution: new_next, ..payment };
        self.payments.set(payment_id, updated);
        self.events.push(
            RecurringEvent::Executed {
                payment_id,
                amount: payment.amount,
                next_execution: new_next,
            },
        );
        Ok(transfer)
    }

    /// Cancels a schedule for good.  The host proves the canceling caller is
    /// the payment's sender before this is reached.  Rejected when the id is
    /// unknown or the payment is already canceled, changing nothing.
    pub fn cancel_payment(&mut self, payment_id: u64) -> (r: Result<(), RecurringPaymentError>)
        requires
            old(self).wf(),
        ensures
            final(self).wf(),
            !old(self).payments().contains_key(payment_id) <==> r == Err::<
                (),
                RecurringPaymentError,
            >(RecurringPaymentError::NotFound),
            old(self).payments().contains_key(payment_id)
                && !old(self).payments()[payment_id].active <==> r == Err::<
                (),
                RecurringPaymentError,
            >(RecurringPaymentError::Inactive),
            r is Err ==> *final(self) == *old(self),
            r is Ok ==> ({
                let p = old(self).payments()[payment_id];
                &&& final(self).payments() == old(self).payments().insert(
                    payment_id,
                    RecurringPayment { active: false, ..p },
                )
                &&& final(self).payment_count() == old(self).payment_count()
                &&& final(self).event_log() == old(self).event_log().push(
                    RecurringEvent::Canceled { payment_id, sender: p.sender },
                )
            }),
    {
        let payment = match self.payments.get(payment_id) {
            Some(p) => *p,
            None => {
                return Err(RecurringPaymentError::NotFound);
            },
        };
        if !payment.active {
            return Err(RecurringPaymentError::Inactive);
        }
        let updated = RecurringPayment { active: false, ..payment };
        self.payments.set(payment_id, updated);
        self.events.push(RecurringEvent::Canceled { payment_id, sender: payment.sender });
        Ok(())
    }

    /// The schedule stored under the id, if any.
    pub fn get_payment(&self, payment_id: u64) -> (r: Option<RecurringPayment>)
        requires
            self.wf(),
        ensures
            r == (if self.payments().contains_key(payment_id) {
                Some(self.payments()[payment_id])
            } else {
                None::<RecurringPayment>
            }),
    {
        match self.payments.get(payment_id) {
            Some(p) => Some(*p),
            None => None,
        }
    }

    /// The notifications emitted so far, oldest first.
    pub fn events(&self) -> (r: &Vec<RecurringEvent>)
        ensures
            r@ == self.event_log(),
    {
        &self.events
    }
}

} // verus!
