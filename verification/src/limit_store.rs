//! Thin accessor layer over the engine's persistent state: key construction
//! plus get/set/has, no business rules.

use vstd::prelude::*;
use crate::limit_types::{DataKey, SpendingLimit};
use crate::table::{PairKey, Table};

verus! {

/// Looks a principal's counter for one period id up in a counter map;
/// absent counters read as zero.
pub open spec fn counter_at(m: Map<PairKey, i128>, user: u64, period: u64) -> i128 {
    if m.contains_key(PairKey { a: user, b: period }) {
        m[PairKey { a: user, b: period }]
    } else {
        0
    }
}

/// The engine's slice of the persistent key-value store: the instance
/// singletons, the configured limits by principal, and the daily and monthly
/// counters by principal and period id.
pub(crate) struct LimitStore {
    pub(crate) admin: Option<u64>,
    pub(crate) last_batch_id: u64,
    pub(crate) total_limits_updated: u64,
    pub(crate) total_batches_processed: u64,
    pub(crate) limits: Table<u64, SpendingLimit>,
    pub(crate) daily: Table<PairKey, i128>,
    pub(crate) monthly: Table<PairKey, i128>,
}

impl LimitStore {
    /// The three record tables are well-formed.
    pub(crate) open spec fn wf(&self) -> bool {
        self.limits.wf() && self.daily.wf() && self.monthly.wf()
    }

    /// The administrator principal, once initialized.
    pub(crate) open spec fn admin(&self) -> Option<u64> {
        self.admin
    }

    /// The id of the last batch processed; 0 before the first.
    pub(crate) open spec fn last_batch_id(&self) -> u64 {
        self.last_batch_id
    }

    /// Cumulative count of limits successfully updated.
    pub(crate) open spec fn total_limits_updated(&self) -> u64 {
        self.total_limits_updated
    }

    /// Cumulative count of batches processed.
    pub(crate) open spec fn total_batches_processed(&self) -> u64 {
        self.total_batches_processed
    }

    /// The configured limits, by principal.
    pub(crate) open spec fn limits(&self) -> Map<u64, SpendingLimit> {
        self.limits@
    }

    /// The daily counters, by (principal, day id).
    pub(crate) open spec fn daily(&self) -> Map<PairKey, i128> {
        self.daily@
    }

    /// The monthly counters, by (principal, month id).
    pub(crate) open spec fn monthly(&self) -> Map<PairKey, i128> {
        self.monthly@
    }

    /// A store holding nothing: no admin, zeroed singletons, empty tables.
    pub(crate) fn new() -> (r: Self)
        ensures
            r.wf(),
            r.admin() is None,
            r.last_batch_id() == 0,
            r.total_limits_updated() == 0,
            r.total_batches_processed() == 0,
            r.limits() == Map::<u64, SpendingLimit>::empty(),
            r.daily() == Map::<PairKey, i128>::empty(),
            r.monthly() == Map::<PairKey, i128>::empty(),
    {
        LimitStore {
            admin: None,
            last_batch_id: 0,
            total_limits_updated: 0,
            total_batches_processed: 0,
            limits: Table::new(),
            daily: Table::new(),
            monthly: Table::new(),
        }
    }

    /// The limit stored for the principal, if any.
    pub(crate) fn get_limit(&self, user: u64) -> (r: Option<&SpendingLimit>)
        requires
            self.wf(),
        ensures
            match r {
                Some(l) => self.limits().contains_key(user) && *l == self.limits()[user],
                None => !self.limits().contains_key(user),
            },
    {
        self.limits.get(user)
    }

    /// Stores the limit under its own principal, replacing any previous
    /// record.
    pub(crate) fn put_limit(&mut self, limit: SpendingLimit)
        requires
            old(self).wf(),
        ensures
            final(self).wf(),
            final(self).limits() == old(self).limits().insert(limit.user, limit),
            final(self).admin() == old(self).admin(),
            final(self).last_batch_id() == old(self).last_batch_id(),
            final(self).total_limits_updated() == old(self).total_limits_updated(),
            final(self).total_batches_processed() == old(self).total_batches_processed(),
            final(self).daily() == old(self).daily(),
            final(self).monthly() == old(self).monthly(),
    {
        let user = limit.user;
        self.limits.set(user, limit);
    }

    /// Reads a period counter; an absent counter reads as zero.
    pub(crate) fn get_period_counter(&self, key: DataKey) -> (r: i128)
        requires
            self.wf(),
            key is DailySpending || key is MonthlySpending,
        ensures
            r == (match key {
                DataKey::DailySpending(u, p) => counter_at(self.daily(), u, p),
                DataKey::MonthlySpending(u, p) => counter_at(self.monthly(), u, p),
                _ => 0,
            }),
    {
        match key {
            DataKey::DailySpending(u, p) => {
                match self.daily.get(PairKey { a: u, b: p }) {
                    Some(v) => *v,
                    None => 0,
                }
            },
            DataKey::MonthlySpending(u, p) => {
                match self.monthly.get(PairKey { a: u, b: p }) {
                    Some(v) => *v,
                    None => 0,
                }
            },
            _ => 0,
        }
    }

    /// Writes a period counter under its (principal, period id) key.
    pub(crate) fn put_period_counter(&mut self, key: DataKey, value: i128)
        requires
            old(self).wf(),
            key is DailySpending || key is MonthlySpending,
        ensures
            final(self).wf(),
            final(self).daily() == (match key {
                DataKey::DailySpending(u, p) => old(self).daily().insert(
                    PairKey { a: u, b: p },
                    value,
                ),
                _ => old(self).daily(),
            }),
            final(self).monthly() == (match key {
                DataKey::MonthlySpending(u, p) => old(self).monthly().insert(
                    PairKey { a: u, b: p },
                    value,
                ),
                _ => old(self).monthly(),
            }),
            final(self).admin() == old(self).admin(),
            final(self).last_batch_id() == old(self).last_batch_id(),
            final(self).total_limits_updated() == old(self).total_limits_updated(),
            final(self).total_batches_processed() == old(self).total_batches_processed(),
            final(self).limits() == old(self).limits(),
    {
        match key {
            DataKey::DailySpending(u, p) => {
                self.daily.set(PairKey { a: u, b: p }, value);
            },
            DataKey::MonthlySpending(u, p) => {
                self.monthly.set(PairKey { a: u, b: p }, value);
            },
            _ => {
            },
        }
    }

    /// Whether the store holds a record under the key.
    pub(crate) fn has(&self, key: &DataKey) -> (r: bool)
        requires
            self.wf(),
        ensures
            r == (match *key {
                DataKey::Admin => self.admin() is Some,
                DataKey::LastBatchId => true,
                DataKey::TotalLimitsUpdated => true,
                DataKey::TotalBatchesProcessed => true,
                DataKey::SpendingLimit(u) => self.limits().contains_key(u),
                DataKey::DailySpending(u, p) => self.daily().contains_key(PairKey { a: u, b: p }),
                DataKey::MonthlySpending(u, p) => self.monthly().contains_key(
                    PairKey { a: u, b: p },
                ),
            }),
    {
        match key {
            DataKey::Admin => self.admin.is_some(),
            DataKey::LastBatchId => true,
            DataKey::TotalLimitsUpdated => true,
            DataKey::TotalBatchesProcessed => true,
            DataKey::SpendingLimit(u) => self.limits.contains_key(*u),
            DataKey::DailySpending(u, p) => self.daily.contains_key(PairKey { a: *u, b: *p }),
            DataKey::MonthlySpending(u, p) => self.monthly.contains_key(PairKey { a: *u, b: *p }),
        }
    }
}

} // verus!
