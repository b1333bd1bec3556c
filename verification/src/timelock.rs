//! Timelocked transfers: records of transactions scheduled for future
//! execution, with the id counter and the notifications their lifecycle
//! emits.

use vstd::prelude::*;
use crate::table::Table;

verus! {

/// Storage keys for timelocked transactions.
#[derive(Clone, Copy, PartialEq, Eq, Structural, Debug)]
pub enum TimelockDataKey {
    NextTimelockId,
    TimelockedTx(u64),
}

/// Represents a single timelocked transaction scheduled for future
/// execution.
pub struct TimelockedTx {
    pub id: u64,
    pub from: u64,
    pub to: u64,
    pub amount: i128,
    pub payload: String,
    /// Optional asset identity (e.g. a token contract); `None` can represent
    /// the native balance.
    pub asset: Option<u64>,
    /// When this transaction becomes executable (ledger timestamp).
    pub execute_at: u64,
    pub created_at: u64,
    pub executed: bool,
    pub canceled: bool,
    /// Actual ledger timestamp when execution happened.
    pub executed_at: Option<u64>,
    /// Actual ledger timestamp when cancellation happened.
    pub canceled_at: Option<u64>,
}

impl Clone for TimelockedTx {
    fn clone(&self) -> (r: Self)
        ensures
            r == *self,
    {
        TimelockedTx {
            id: self.id,
            from: self.from,
            to: self.to,
            amount: self.amount,
            payload: self.payload.clone(),
            asset: self.asset,
            execute_at: self.execute_at,
            created_at: self.created_at,
            executed: self.executed,
            canceled: self.canceled,
            executed_at: self.executed_at,
            canceled_at: self.canceled_at,
        }
    }
}

/// Why a timelock call was rejected.
#[derive(Clone, Copy, PartialEq, Eq, Structural, Debug)]
pub enum TimelockError {
    NotFound,
    AlreadyExecuted,
    AlreadyCanceled,
    EarlyExecution,
    InvalidScheduleTime,
}

/// A notification the timelock lifecycle hands to the host's event log.
pub enum TimelockEvent {
    Scheduled { id: u64, from: u64, to: u64, amount: i128, asset: Option<u64>, execute_at: u64 },
    Executed {
        id: u64,
        executor: u64,
        from: u64,
        to: u64,
        amount: i128,
        asset: Option<u64>,
        execute_at: u64,
        executed_at: Option<u64>,
    },
    Cancelled {
        id: u64,
        canceller: u64,
        from: u64,
        to: u64,
        amount: i128,
        asset: Option<u64>,
        execute_at: u64,
        canceled_at: Option<u64>,
    },
}

/// The timelock records' slice of the persistent store: the id counter and
/// the transactions by id.
pub struct TimelockStore {
    next_timelock_id: u64,
    txs: Table<u64, TimelockedTx>,
}

impl TimelockStore {
    /// The last identifier handed out; 0 before the first.
    pub closed spec fn last_id(&self) -> u64 {
        self.next_timelock_id
    }

    /// The stored transactions, by id.
    pub closed spec fn txs(&self) -> Map<u64, TimelockedTx> {
        self.txs@
    }

    /// Validity of the state.
    pub closed spec fn wf(&self) -> bool {
        self.txs.wf()
    }

    /// An empty store.
    pub fn new() -> (r: Self)
        ensures
            r.wf(),
            r.last_id() == 0,
            r.txs() == Map::<u64, TimelockedTx>::empty(),
    {
        TimelockStore { next_timelock_id: 0, txs: Table::new() }
    }

    /// Whether the store holds a record under the key.
    pub fn has(&self, key: &TimelockDataKey) -> (r: bool)
        requires
            self.wf(),
        ensures
            r == (match *key {
                TimelockDataKey::NextTimelockId => true,
                TimelockDataKey::TimelockedTx(id) => self.txs().contains_key(id),
            }),
    {
        match key {
            TimelockDataKey::NextTimelockId => true,
            TimelockDataKey::TimelockedTx(id) => self.txs.contains_key(*id),
        }
    }
}

/// Generate and persist the next timelock identifier; identifiers count up
/// from 1, and an exhausted counter is rejected without a change.
pub fn next_timelock_id(store: &mut TimelockStore) -> (r: Result<u64, TimelockError>)
    requires
        old(store).wf(),
    ensures
        final(store).wf(),
        r is Err <==> old(store).last_id() == u64::MAX,
        r is Err ==> *final(store) == *old(store) && r->Err_0
            == TimelockError::InvalidScheduleTime,
        r is Ok ==> r->Ok_0 == old(store).last_id() + 1 && final(store).last_id() == r->Ok_0
            && final(store).txs() == old(store).txs(),
{
    let current = store.next_timelock_id;
    let next = match current.checked_add(1) {
        Some(n) => n,
        None => {
            return Err(TimelockError::InvalidScheduleTime);
        },
    };
    store.next_timelock_id = next;
    Ok(next)
}

/// Stores a freshly scheduled transaction under its own id.
pub fn save_timelock(store: &mut TimelockStore, tx: &TimelockedTx)
    requires
        old(store).wf(),
    ensures
        final(store).wf(),
        final(store).txs() == old(store).txs().insert(tx.id, *tx),
        final(store).last_id() == old(store).last_id(),
{
    store.txs.set(tx.id, tx.clone());
}

/// The transaction stored under the id, if any.
pub fn get_timelock(store: &TimelockStore, id: u64) -> (r: Option<TimelockedTx>)
    requires
        store.wf(),
    ensures
        r == (if store.txs().contains_key(id) {
            Some(store.txs()[id])
        } else {
            None::<TimelockedTx>
        }),
{
    match store.txs.get(id) {
        Some(tx) => Some(tx.clone()),
        None => None,
    }
}

/// Replaces a stored transaction with its updated record, under its own id.
pub fn update_timelock(store: &mut TimelockStore, tx: &TimelockedTx)
    requires
        old(store).wf(),
    ensures
        final(store).wf(),
        final(store).txs() == old(store).txs().insert(tx.id, *tx),
        final(store).last_id() == old(store).last_id(),
{
    store.txs.set(tx.id, tx.clone());
}

/// The timelock lifecycle's notifications; each call appends one record to
/// the injected event log.
pub struct TimelockEvents;

impl TimelockEvents {
    /// Emitted when a new timelocked transaction is scheduled.
    pub fn scheduled(log: &mut Vec<TimelockEvent>, tx: &TimelockedTx)
        ensures
            final(log)@ == old(log)@.push(
                TimelockEvent::Scheduled {
                    id: tx.id,
                    from: tx.from,
                    to: tx.to,
                    amount: tx.amount,
                    asset: tx.asset,
                    execute_at: tx.execute_at,
                },
            ),
    {
        log.push(
            TimelockEvent::Scheduled {
                id: tx.id,
                from: tx.from,
                to: tx.to,
                amount: tx.amount,
                asset: tx.asset,
                execute_at: tx.execute_at,
            },
        );
    }

    /// Emitted when a timelocked transaction is successfully executed.
    pub fn executed(log: &mut Vec<TimelockEvent>, tx: &TimelockedTx, executor: u64)
        ensures
            final(log)@ == old(log)@.push(
                TimelockEvent::Executed {
                    id: tx.id,
                    executor,
                    from: tx.from,
                    to: tx.to,
                    amount: tx.amount,
                    asset: tx.asset,
                    execute_at: tx.execute_at,
                    executed_at: tx.executed_at,
                },
            ),
    {
        log.push(
            TimelockEvent::Executed {
                id: tx.id,
                executor,
                from: tx.from,
                to: tx.to,
                amount: tx.amount,
                asset: tx.asset,
                execute_at: tx.execute_at,
                executed_at: tx.executed_at,
            },
        );
    }

    /// Emitted when a timelocked transaction is cancelled before execution.
    pub fn cancelled(log: &mut Vec<TimelockEvent>, tx: &TimelockedTx, canceller: u64)
        ensures
            final(log)@ == old(log)@.push(
                TimelockEvent::Cancelled {
                    id: tx.id,
                    canceller,
                    from: tx.from,
                    to: tx.to,
                    amount: tx.amount,
                    asset: tx.asset,
                    execute_at: tx.execute_at,
                    canceled_at: tx.canceled_at,
                },
            ),
    {
        log.push(
            TimelockEvent::Cancelled {
                id: tx.id,
                canceller,
                from: tx.from,
                to: tx.to,
                amount: tx.amount,
                asset: tx.asset,
                execute_at: tx.execute_at,
                canceled_at: tx.canceled_at,
            },
        );
    }
}

} // verus!
