//! Fraud detection logic for flagging suspicious transactions.

use vstd::prelude::*;
use crate::limit_store::counter_at;
use crate::limit_types::SECONDS_PER_DAY;
use crate::spending_limits::{day_of, sat_add, saturating_add_i128};
use crate::table::{PairKey, Table};

verus! {

/// Default single-transaction size threshold.
pub const DEFAULT_FRAUD_THRESHOLD: i128 = 10_000;

/// Default per-day volume threshold.
pub const DEFAULT_FRAUD_MAX_DAILY: i128 = 100_000;

/// Thresholds the fraud rules run against.
#[derive(Clone, Copy, PartialEq, Eq, Structural, Debug)]
pub struct FraudConfig {
    pub threshold: i128,
    pub max_daily: i128,
}

impl Default for FraudConfig {
    /// The stock configuration: flag single transactions of 10,000 or more,
    /// and daily volumes over 100,000.
    fn default() -> (r: Self)
        ensures
            r.threshold == DEFAULT_FRAUD_THRESHOLD,
            r.max_daily == DEFAULT_FRAUD_MAX_DAILY,
    {
        FraudConfig { threshold: DEFAULT_FRAUD_THRESHOLD, max_daily: 100_000 }
    }
}

/// The alert a flagged transaction raises: the amount and which rules fired.
#[derive(Clone, Copy, PartialEq, Eq, Structural, Debug)]
pub struct FraudAlert {
    pub user: u64,
    pub amount: i128,
    /// The single transaction is at or over the size threshold.
    pub abnormal_size: bool,
    /// The day's accumulated volume passed the daily threshold.
    pub daily_limit: bool,
}

/// The fraud contract's state: per-(principal, day) running volumes plus the
/// alerts raised so far.
pub struct FraudContract {
    daily_totals: Table<PairKey, i128>,
    events: Vec<FraudAlert>,
}

impl FraudContract {
    /// The accumulated daily volumes, by (principal, day id).
    pub closed spec fn daily_totals(&self) -> Map<PairKey, i128> {
        self.daily_totals@
    }

    /// The alerts raised so far, oldest first.
    pub closed spec fn event_log(&self) -> Seq<FraudAlert> {
        self.events@
    }

    /// Validity of the state.
    pub closed spec fn wf(&self) -> bool {
        self.daily_totals.wf()
    }

    /// A contract with no history and no alerts.
    pub fn new() -> (r: Self)
        ensures
            r.wf(),
            r.daily_totals() == Map::<PairKey, i128>::empty(),
            r.event_log() == Seq::<FraudAlert>::empty(),
    {
        FraudContract { daily_totals: Table::new(), events: Vec::new() }
    }

    /// Checks one transaction against the stock thresholds and records its
    /// amount into the principal's running total for the day (accumulated
    /// with saturating addition, and recorded whether or not the transaction
    /// is flagged).  Returns true, and raises an alert naming the rules that
    /// fired, when the transaction is abnormally large or pushes the day's
    /// volume over the daily threshold.
    pub fn check_transaction(&mut self, user: u64, amount: i128, now: u64) -> (flagged: bool)
        requires
            old(self).wf(),
        ensures
            final(self).wf(),
            ({
                let prev = counter_at(old(self).daily_totals(), user, day_of(now));
                let new_total = sat_add(prev, amount);
                let abnormal = amount >= DEFAULT_FRAUD_THRESHOLD;
                let over_daily = new_total > DEFAULT_FRAUD_MAX_DAILY;
                &&& flagged == (abnormal || over_daily)
                &&& final(self).daily_totals() == old(self).daily_totals().insert(
                    PairKey { a: user, b: day_of(now) },
                    new_total,
                )
                &&& final(self).event_log() == (if flagged {
                    old(self).event_log().push(
                        FraudAlert { user, amount, abnormal_size: abnormal, daily_limit: over_daily },
                    )
                } else {
                    old(self).event_log()
                })
            }),
    {
        let config = FraudConfig::default();
        let mut flagged = false;
        let mut abnormal_size = false;
        let mut daily_limit = false;

        if amount >= config.threshold {
            flagged = true;
            abnormal_size = true;
        }

        let today = now / SECONDS_PER_DAY;
        let user_key = PairKey { a: user, b: today };
        let prev_total: i128 = match self.daily_totals.get(user_key) {
            Some(v) => *v,
            None => 0,
        };
        let new_total = saturating_add_i128(prev_total, amount);
        self.daily_totals.set(user_key, new_total);
        if new_total > config.max_daily {
            flagged = true;
            daily_limit = true;
        }

        if flagged {
            self.events.push(FraudAlert { user, amount, abnormal_size, daily_limit });
        }
        flagged
    }

    /// Placeholder for configuration updates; the stock thresholds are fixed
    /// for now and this call changes nothing.
    pub fn set_config(&mut self, _admin: u64, _threshold: i128, _max_daily: i128)
        ensures
            *final(self) == *old(self),
    {
    }

    /// The alerts raised so far, oldest first.
    pub fn events(&self) -> (r: &Vec<FraudAlert>)
        ensures
            r@ == self.event_log(),
    {
        &self.events
    }
}

} // verus!
