//! The spending-limit engine: batch reconfiguration of per-principal
//! monthly limits, and per-spend enforcement against a daily cap derived
//! from the monthly cap over rolling day and month windows.

use vstd::prelude::*;
use crate::limit_store::{counter_at, LimitStore};
use crate::limit_types::{limit_for, req_error, req_valid, result_for, BatchLimitMetrics,
    BatchLimitResult, DataKey, LimitEvent, LimitUpdateResult, SpendingLimit,
    SpendingLimitRequest, HIGH_VALUE_THRESHOLD, MAX_BATCH_SIZE, SECONDS_PER_DAY,
    SECONDS_PER_MONTH};
use crate::limit_validation::validate_limit_request;
use crate::table::PairKey;

verus! {

/// Error codes of the spending-limit engine.  Each aborts the whole call:
/// a call that returns one of these has changed no stored record.
#[derive(Clone, Copy, PartialEq, Eq, Structural, Debug)]
pub enum SpendingLimitError {
    /// No administrator has been set yet.
    NotInitialized,
    /// The caller is not the administrator.
    Unauthorized,
    /// Invalid batch data.
    InvalidBatch,
    /// The batch holds no request.
    EmptyBatch,
    /// The batch holds more than `MAX_BATCH_SIZE` requests.
    BatchTooLarge,
    /// The spend would push the day's total over the derived daily cap.
    DailyLimitExceeded,
    /// The spend would push the month's total over the monthly limit.
    MonthlyLimitExceeded,
    /// The spend amount is not positive.
    InvalidAmount,
}

/// The day id a timestamp falls in.
pub open spec fn day_of(now: u64) -> u64 {
    now / SECONDS_PER_DAY
}

/// The month id a timestamp falls in: a month is thirty logical days.
pub open spec fn month_of(now: u64) -> u64 {
    now / SECONDS_PER_MONTH
}

/// Saturating addition on `i128`: the sum, clamped to the representable
/// range instead of wrapping or aborting.
pub open spec fn sat_add(a: i128, b: i128) -> i128 {
    if a + b > i128::MAX {
        i128::MAX
    } else if a + b < i128::MIN {
        i128::MIN
    } else {
        (a + b) as i128
    }
}

/// The daily cap derived from a monthly limit: 0 when the monthly limit is
/// not positive, else a thirty-day split floored at 1, so that any positive
/// monthly limit yields an enforceable positive daily cap.
pub open spec fn daily_limit_of(monthly_limit: i128) -> i128 {
    if monthly_limit <= 0 {
        0
    } else if monthly_limit / 30 == 0 {
        1
    } else {
        (monthly_limit / 30) as i128
    }
}

/// Well-formedness of the stored limits: each record sits under its own
/// principal, is only active with a positive monthly limit, and mirrors a
/// non-negative spending total.
pub open spec fn limits_ok(m: Map<u64, SpendingLimit>) -> bool {
    forall|u: u64| #[trigger]
        m.contains_key(u) ==> m[u].user == u && (m[u].is_active ==> m[u].monthly_limit > 0)
            && m[u].current_spending >= 0
}

/// Well-formedness of a period-counter map: every stored total is
/// non-negative.
pub open spec fn counters_ok(m: Map<PairKey, i128>) -> bool {
    forall|k: PairKey| #[trigger] m.contains_key(k) ==> m[k] >= 0
}

/// Whether the map holds an active limit for the principal; only active
/// limits are enforced.
pub open spec fn active_limit(m: Map<u64, SpendingLimit>, user: u64) -> bool {
    m.contains_key(user) && m[user].is_active
}

/// The notification a rejected spend leaves in the event log: the attempted
/// amount and the headroom left in both windows (zero once a window is at or
/// over its cap).
pub open spec fn violation_event(
    user: u64,
    amount: i128,
    daily_limit: i128,
    current_daily: i128,
    monthly_limit: i128,
    current_monthly: i128,
) -> LimitEvent {
    LimitEvent::LimitExceeded {
        user,
        attempted: amount,
        remaining_daily: if current_daily >= daily_limit {
            0
        } else {
            (daily_limit - current_daily) as i128
        },
        remaining_monthly: if current_monthly >= monthly_limit {
            0
        } else {
            (monthly_limit - current_monthly) as i128
        },
    }
}

/// Saturating `i128` addition, as the counters and batch totals use it.
pub fn saturating_add_i128(a: i128, b: i128) -> (r: i128)
    ensures
        r == sat_add(a, b),
{
    match a.checked_add(b) {
        Some(v) => v,
        None => {
            if b >= 0 {
                i128::MAX
            } else {
                i128::MIN
            }
        },
    }
}

/// Derives the daily cap from the monthly limit: `max(1, monthly_limit / 30)`
/// whenever `monthly_limit > 0`, and 0 otherwise.  The cap is recomputed on
/// every spend and never stored, so a mid-month change of the monthly limit
/// takes effect at once.
pub fn derive_daily_limit(monthly_limit: i128) -> (r: i128)
    ensures
        r == daily_limit_of(monthly_limit),
        monthly_limit > 0 ==> r >= 1,
        monthly_limit <= 0 ==> r == 0,
{
    if monthly_limit <= 0 {
        0
    } else {
        let base = ((monthly_limit as u128) / 30) as i128;
        assert(base == monthly_limit / 30);
        if base == 0 {
            1
        } else {
            base
        }
    }
}


/// How many requests of the batch pass validation.
pub open spec fn count_valid(s: Seq<SpendingLimitRequest>) -> int
    decreases s.len(),
{
    if s.len() == 0 {
        0
    } else {
        count_valid(s.drop_last()) + if req_valid(s.last()) {
            1int
        } else {
            0int
        }
    }
}

/// The batch's total of successfully applied monthly limits, accumulated
/// with saturating addition.
pub open spec fn batch_total(s: Seq<SpendingLimitRequest>) -> i128
    decreases s.len(),
{
    if s.len() == 0 {
        0
    } else {
        if req_valid(s.last()) {
            sat_add(batch_total(s.drop_last()), s.last().monthly_limit)
        } else {
            batch_total(s.drop_last())
        }
    }
}

/// The limits map after a batch: each valid request stores a fresh record
/// under its principal, in order, so of two valid requests for one
/// principal the later wins; invalid requests touch nothing.
pub open spec fn apply_requests(
    m: Map<u64, SpendingLimit>,
    s: Seq<SpendingLimitRequest>,
    now: u64,
) -> Map<u64, SpendingLimit>
    decreases s.len(),
{
    if s.len() == 0 {
        m
    } else {
        if req_valid(s.last()) {
            apply_requests(m, s.drop_last(), now).insert(s.last().user, limit_for(s.last(), now))
        } else {
            apply_requests(m, s.drop_last(), now)
        }
    }
}

/// The notifications one request leaves: an update notice (plus a
/// high-value notice at or above the threshold) on success, a failure
/// notice carrying the error code otherwise.
pub open spec fn item_events(r: SpendingLimitRequest, batch_id: u64, now: u64) -> Seq<LimitEvent> {
    if req_valid(r) {
        if r.monthly_limit >= HIGH_VALUE_THRESHOLD {
            seq![
                LimitEvent::LimitUpdated { batch_id, limit: limit_for(r, now) },
                LimitEvent::HighValueLimit {
                    batch_id,
                    user: r.user,
                    monthly_limit: r.monthly_limit,
                },
            ]
        } else {
            seq![LimitEvent::LimitUpdated { batch_id, limit: limit_for(r, now) }]
        }
    } else {
        seq![LimitEvent::LimitUpdateFailed { batch_id, user: r.user, error: req_error(r) }]
    }
}

/// The per-item notifications of a whole batch, in request order.
pub open spec fn batch_events(
    s: Seq<SpendingLimitRequest>,
    batch_id: u64,
    now: u64,
) -> Seq<LimitEvent>
    decreases s.len(),
{
    if s.len() == 0 {
        Seq::empty()
    } else {
        batch_events(s.drop_last(), batch_id, now) + item_events(s.last(), batch_id, now)
    }
}

/// The integer-truncated mean limit over the successes; 0 when none
/// succeeded.
pub open spec fn batch_avg(total: i128, successful: u32) -> i128 {
    if successful > 0 {
        ((total as int) / (successful as int)) as i128
    } else {
        0
    }
}

/// The code a batch call aborts with, in check order: authorization first,
/// then emptiness, then size.
pub open spec fn batch_error(admin: Option<u64>, caller: u64, n: nat) -> SpendingLimitError {
    if admin is None {
        SpendingLimitError::NotInitialized
    } else if admin != Some(caller) {
        SpendingLimitError::Unauthorized
    } else if n == 0 {
        SpendingLimitError::EmptyBatch
    } else {
        SpendingLimitError::BatchTooLarge
    }
}

proof fn lemma_batch_total_nonneg(s: Seq<SpendingLimitRequest>)
    ensures
        batch_total(s) >= 0,
    decreases s.len(),
{
    if s.len() > 0 {
        lemma_batch_total_nonneg(s.drop_last());
    }
}

proof fn lemma_batch_take_step(
    m: Map<u64, SpendingLimit>,
    s: Seq<SpendingLimitRequest>,
    batch_id: u64,
    now: u64,
    i: int,
)
    requires
        0 <= i < s.len(),
    ensures
        count_valid(s.take(i + 1)) == count_valid(s.take(i)) + (if req_valid(s[i]) {
            1int
        } else {
            0int
        }),
        0 <= count_valid(s.take(i + 1)) <= i + 1,
        0 <= count_valid(s.take(i)) <= i,
        batch_total(s.take(i + 1)) == (if req_valid(s[i]) {
            sat_add(batch_total(s.take(i)), s[i].monthly_limit)
        } else {
            batch_total(s.take(i))
        }),
        batch_total(s.take(i + 1)) >= 0,
        apply_requests(m, s.take(i + 1), now) == (if req_valid(s[i]) {
            apply_requests(m, s.take(i), now).insert(s[i].user, limit_for(s[i], now))
        } else {
            apply_requests(m, s.take(i), now)
        }),
        batch_events(s.take(i + 1), batch_id, now) == batch_events(s.take(i), batch_id, now)
            + item_events(s[i], batch_id, now),
    decreases i,
{
    assert(s.take(i + 1).drop_last() =~= s.take(i));
    assert(s.take(i + 1).last() == s[i]);
    lemma_batch_total_nonneg(s.take(i + 1));
    if i > 0 {
        lemma_batch_take_step(m, s, batch_id, now, i - 1);
    }
}

/// The spending-limit engine's whole state: its slice of the persistent
/// store plus the notifications it has handed to the event log.
pub struct SpendingLimitsContract {
    store: LimitStore,
    events: Vec<LimitEvent>,
}

impl SpendingLimitsContract {
    /// The administrator principal, once initialized.
    pub closed spec fn admin(&self) -> Option<u64> {
        self.store.admin()
    }

    /// The id of the last batch processed; 0 before the first.
    pub closed spec fn last_batch_id(&self) -> u64 {
        self.store.last_batch_id()
    }

    /// Cumulative count of limits successfully updated.
    pub closed spec fn total_limits_updated(&self) -> u64 {
        self.store.total_limits_updated()
    }

    /// Cumulative count of batches processed.
    pub closed spec fn total_batches_processed(&self) -> u64 {
        self.store.total_batches_processed()
    }

    /// The configured limits, by principal.
    pub closed spec fn limits(&self) -> Map<u64, SpendingLimit> {
        self.store.limits()
    }

    /// The daily counters, by (principal, day id).
    pub closed spec fn daily(&self) -> Map<PairKey, i128> {
        self.store.daily()
    }

    /// The monthly counters, by (principal, month id).
    pub closed spec fn monthly(&self) -> Map<PairKey, i128> {
        self.store.monthly()
    }

    /// The notifications emitted so far, oldest first.
    pub closed spec fn event_log(&self) -> Seq<LimitEvent> {
        self.events@
    }

    /// Validity of the state: the store's tables are well-formed, each
    /// stored limit sits under its own principal, is only active with a
    /// positive monthly limit, and mirrors a non-negative spending total,
    /// and every period counter is non-negative.
    pub closed spec fn wf(&self) -> bool {
        &&& self.store.wf()
        &&& limits_ok(self.store.limits())
        &&& counters_ok(self.store.daily())
        &&& counters_ok(self.store.monthly())
    }

    /// A contract nothing has happened to yet: uninitialized, no records,
    /// no events.
    pub fn new() -> (r: Self)
        ensures
            r.wf(),
            r.admin() is None,
            r.last_batch_id() == 0,
            r.total_limits_updated() == 0,
            r.total_batches_processed() == 0,
            r.limits() == Map::<u64, SpendingLimit>::empty(),
            r.daily() == Map::<PairKey, i128>::empty(),
            r.monthly() == Map::<PairKey, i128>::empty(),
            r.event_log() == Seq::<LimitEvent>::empty(),
    {
        SpendingLimitsContract { store: LimitStore::new(), events: Vec::new() }
    }

    /// Sets the administrator and zeroes the running totals.  May be called
    /// once; the host aborts a second call before it reaches the contract.
    pub fn initialize(&mut self, admin: u64)
        requires
            old(self).wf(),
            old(self).admin() is None,
        ensures
            final(self).wf(),
            final(self).admin() == Some(admin),
            final(self).last_batch_id() == 0,
            final(self).total_limits_updated() == 0,
            final(self).total_batches_processed() == 0,
            final(self).limits() == old(self).limits(),
            final(self).daily() == old(self).daily(),
            final(self).monthly() == old(self).monthly(),
            final(self).event_log() == old(self).event_log(),
    {
        self.store.admin = Some(admin);
        self.store.last_batch_id = 0;
        self.store.total_limits_updated = 0;
        self.store.total_batches_processed = 0;
    }

    /// Whether an administrator has been set.
    pub fn is_initialized(&self) -> (r: bool)
        ensures
            r == (self.admin() is Some),
    {
        self.store.admin.is_some()
    }

    /// The administrator principal; the host aborts a call on an
    /// uninitialized contract before it reaches this.
    pub fn get_admin(&self) -> (r: u64)
        requires
            self.admin() is Some,
        ensures
            Some(r) == self.admin(),
    {
        match self.store.admin {
            Some(a) => a,
            None => {
                assert(false);
                0
            },
        }
    }

    /// Hands the administrator role over; only the current administrator
    /// may do so, and only once one is set.
    pub fn set_admin(&mut self, current_admin: u64, new_admin: u64) -> (r: Result<
        (),
        SpendingLimitError,
    >)
        requires
            old(self).wf(),
        ensures
            final(self).wf(),
            r is Ok <==> old(self).admin() == Some(current_admin),
            r is Ok ==> final(self).admin() == Some(new_admin),
            r is Err ==> *final(self) == *old(self),
            old(self).admin() is None ==> r == Err::<(), SpendingLimitError>(
                SpendingLimitError::NotInitialized,
            ),
            old(self).admin() is Some && old(self).admin() != Some(current_admin) ==> r == Err::<
                (),
                SpendingLimitError,
            >(SpendingLimitError::Unauthorized),
            final(self).last_batch_id() == old(self).last_batch_id(),
            final(self).total_limits_updated() == old(self).total_limits_updated(),
            final(self).total_batches_processed() == old(self).total_batches_processed(),
            final(self).limits() == old(self).limits(),
            final(self).daily() == old(self).daily(),
            final(self).monthly() == old(self).monthly(),
            final(self).event_log() == old(self).event_log(),
    {
        match self.store.admin {
            None => Err(SpendingLimitError::NotInitialized),
            Some(a) => {
                if a != current_admin {
                    Err(SpendingLimitError::Unauthorized)
                } else {
                    self.store.admin = Some(new_admin);
                    Ok(())
                }
            },
        }
    }

    /// A principal's configured limit, if one is stored.  The result is a
    /// function of the state and the principal alone, and the call changes
    /// nothing, so two reads without an intervening update return identical
    /// values.
    pub fn get_spending_limit(&self, user: u64) -> (r: Option<SpendingLimit>)
        requires
            self.wf(),
        ensures
            r == (if self.limits().contains_key(user) {
                Some(self.limits()[user])
            } else {
                None::<SpendingLimit>
            }),
    {
        match self.store.get_limit(user) {
            Some(l) => Some(l.clone()),
            None => None,
        }
    }

    /// The id of the last batch processed; 0 before the first.
    pub fn get_last_batch_id(&self) -> (r: u64)
        ensures
            r == self.last_batch_id(),
    {
        self.store.last_batch_id
    }

    /// Cumulative count of limits successfully updated.
    pub fn get_total_limits_updated(&self) -> (r: u64)
        ensures
            r == self.total_limits_updated(),
    {
        self.store.total_limits_updated
    }

    /// Cumulative count of batches processed.
    pub fn get_total_batches_processed(&self) -> (r: u64)
        ensures
            r == self.total_batches_processed(),
    {
        self.store.total_batches_processed
    }

    /// The notifications emitted so far, oldest first.
    pub fn events(&self) -> (r: &Vec<LimitEvent>)
        ensures
            r@ == self.event_log(),
    {
        &self.events
    }


    /// Processes an ordered batch of limit-update requests under one fresh
    /// batch id.  The whole call aborts — changing nothing — when the caller
    /// is not the administrator or the batch is empty or oversized; past
    /// those checks, every request is handled independently: a valid request
    /// stores a fresh limit (spending reset to zero) and an invalid one is
    /// recorded as a failure, in input order, one outcome per request, and
    /// one request's failure never affects another's success.  The running
    /// totals advance once, and the notifications bracket the per-item
    /// notices.
    pub fn batch_update_spending_limits(
        &mut self,
        caller: u64,
        requests: Vec<SpendingLimitRequest>,
        ledger_sequence: u64,
    ) -> (r: Result<BatchLimitResult, SpendingLimitError>)
        requires
            old(self).wf(),
            old(self).last_batch_id() < u64::MAX,
            old(self).total_batches_processed() < u64::MAX,
            old(self).total_limits_updated() + requests@.len() <= u64::MAX,
        ensures
            final(self).wf(),
            r is Err <==> !(old(self).admin() == Some(caller) && 1 <= requests@.len()
                <= MAX_BATCH_SIZE),
            r is Err ==> *final(self) == *old(self) && r->Err_0 == batch_error(
                old(self).admin(),
                caller,
                requests@.len(),
            ),
            r is Ok ==> ({
                let b = r->Ok_0;
                let s = requests@;
                &&& b.batch_id == old(self).last_batch_id() + 1
                &&& b.total_requests == s.len() as u32
                &&& b.successful as int == count_valid(s)
                &&& b.failed as int == s.len() - count_valid(s)
                &&& b.successful + b.failed == b.total_requests
                &&& b.results@.len() == s.len()
                &&& (forall|i: int|
                    0 <= i < s.len() ==> b.results@[i] == result_for(s[i], ledger_sequence))
                &&& b.metrics.total_requests == b.total_requests
                &&& b.metrics.successful_updates == b.successful
                &&& b.metrics.failed_updates == b.failed
                &&& b.metrics.total_limits_value == batch_total(s)
                &&& b.metrics.avg_limit_amount == batch_avg(batch_total(s), b.successful)
                &&& b.metrics.processed_at == ledger_sequence
                &&& final(self).admin() == old(self).admin()
                &&& final(self).last_batch_id() == b.batch_id
                &&& final(self).total_limits_updated() == old(self).total_limits_updated()
                    + b.successful
                &&& final(self).total_batches_processed() == old(self).total_batches_processed()
                    + 1
                &&& final(self).limits() == apply_requests(
                    old(self).limits(),
                    s,
                    ledger_sequence,
                )
                &&& final(self).daily() == old(self).daily()
                &&& final(self).monthly() == old(self).monthly()
                &&& final(self).event_log() == old(self).event_log() + seq![
                    LimitEvent::BatchStarted { batch_id: b.batch_id, request_count: s.len() as u32 },
                ] + batch_events(s, b.batch_id, ledger_sequence) + seq![
                    LimitEvent::BatchCompleted {
                        batch_id: b.batch_id,
                        successful: b.successful,
                        failed: b.failed,
                        total_value: batch_total(s),
                    },
                ]
            }),
    {
        let admin = match self.store.admin {
            None => {
                return Err(SpendingLimitError::NotInitialized);
            },
            Some(a) => a,
        };
        if admin != caller {
            return Err(SpendingLimitError::Unauthorized);
        }
        let request_count = requests.len();
        if request_count == 0 {
            return Err(SpendingLimitError::EmptyBatch);
        }
        if request_count > MAX_BATCH_SIZE as usize {
            return Err(SpendingLimitError::BatchTooLarge);
        }

        let ghost pre = *old(self);
        let ghost s = requests@;
        let batch_id = self.store.last_batch_id + 1;
        self.events.push(
            LimitEvent::BatchStarted { batch_id, request_count: request_count as u32 },
        );
        let ghost events0 = self.events@;

        let mut results: Vec<LimitUpdateResult> = Vec::new();
        let mut successful_count: u32 = 0;
        let mut failed_count: u32 = 0;
        let mut total_limits_value: i128 = 0;

        let mut idx: usize = 0;
        while idx < request_count
            invariant
                0 <= idx <= request_count,
                request_count == s.len(),
                request_count <= MAX_BATCH_SIZE,
                requests@ == s,
                batch_id == pre.store.last_batch_id() + 1,
                self.store.wf(),
                limits_ok(self.store.limits()),
                self.store.admin() == pre.store.admin(),
                self.store.last_batch_id() == pre.store.last_batch_id(),
                self.store.total_limits_updated() == pre.store.total_limits_updated(),
                self.store.total_batches_processed() == pre.store.total_batches_processed(),
                self.store.daily() == pre.store.daily(),
                self.store.monthly() == pre.store.monthly(),
                counters_ok(self.store.daily()),
                counters_ok(self.store.monthly()),
                self.store.limits() == apply_requests(
                    pre.store.limits(),
                    s.take(idx as int),
                    ledger_sequence,
                ),
                self.events@ == events0 + batch_events(
                    s.take(idx as int),
                    batch_id,
                    ledger_sequence,
                ),
                results@.len() == idx,
                forall|j: int|
                    0 <= j < idx ==> results@[j] == result_for(s[j], ledger_sequence),
                successful_count as int == count_valid(s.take(idx as int)),
                failed_count as int == idx - count_valid(s.take(idx as int)),
                0 <= count_valid(s.take(idx as int)) <= idx,
                total_limits_value == batch_total(s.take(idx as int)),
                total_limits_value >= 0,
            decreases request_count - idx,
        {
            proof {
                lemma_batch_take_step(
                    pre.store.limits(),
                    s,
                    batch_id,
                    ledger_sequence,
                    idx as int,
                );
            }
            let request = &requests[idx];
            match validate_limit_request(request) {
                Ok(()) => {
                    let limit = SpendingLimit {
                        user: request.user,
                        monthly_limit: request.monthly_limit,
                        current_spending: 0,
                        category: request.category.clone(),
                        updated_at: ledger_sequence,
                        is_active: true,
                    };
                    proof {
                        assert(limit == limit_for(s[idx as int], ledger_sequence));
                    }
                    total_limits_value = saturating_add_i128(
                        total_limits_value,
                        request.monthly_limit,
                    );
                    successful_count = successful_count + 1;
                    self.store.put_limit(limit.clone());
                    self.events.push(LimitEvent::LimitUpdated { batch_id, limit: limit.clone() });
                    if request.monthly_limit >= HIGH_VALUE_THRESHOLD {
                        self.events.push(
                            LimitEvent::HighValueLimit {
                                batch_id,
                                user: request.user,
                                monthly_limit: request.monthly_limit,
                            },
                        );
                    }
                    results.push(LimitUpdateResult::Success(limit));
                },
                Err(error_code) => {
                    failed_count = failed_count + 1;
                    self.events.push(
                        LimitEvent::LimitUpdateFailed {
                            batch_id,
                            user: request.user,
                            error: error_code,
                        },
                    );
                    results.push(LimitUpdateResult::Failure(request.user, error_code));
                },
            }
            proof {
                assert(self.events@ =~= events0 + batch_events(
                    s.take(idx + 1),
                    batch_id,
                    ledger_sequence,
                ));
            }
            idx = idx + 1;
        }
        proof {
            assert(s.take(request_count as int) =~= s);
        }

        let avg_limit_amount: i128 = if successful_count > 0 {
            let q = (total_limits_value as u128) / (successful_count as u128);
            proof {
                assert(q == (total_limits_value as int) / (successful_count as int) && q
                    <= total_limits_value as int);
            }
            q as i128
        } else {
            0
        };

        let metrics = BatchLimitMetrics {
            total_requests: request_count as u32,
            successful_updates: successful_count,
            failed_updates: failed_count,
            total_limits_value,
            avg_limit_amount,
            processed_at: ledger_sequence,
        };

        let total_limits = self.store.total_limits_updated;
        let total_batches = self.store.total_batches_processed;
        self.store.last_batch_id = batch_id;
        self.store.total_limits_updated = total_limits + successful_count as u64;
        self.store.total_batches_processed = total_batches + 1;
        self.events.push(
            LimitEvent::BatchCompleted {
                batch_id,
                successful: successful_count,
                failed: failed_count,
                total_value: total_limits_value,
            },
        );
        proof {
            assert(self.events@ =~= pre.events@ + seq![
                LimitEvent::BatchStarted { batch_id, request_count: s.len() as u32 },
            ] + batch_events(s, batch_id, ledger_sequence) + seq![
                LimitEvent::BatchCompleted {
                    batch_id,
                    successful: successful_count,
                    failed: failed_count,
                    total_value: total_limits_value,
                },
            ]);
        }

        Ok(
            BatchLimitResult {
                batch_id,
                total_requests: request_count as u32,
                successful: successful_count,
                failed: failed_count,
                results,
                metrics,
            },
        )
    }

    /// Enforces the configured limits against one spend of `amount` at
    /// ledger time `now`.  All-or-nothing: either both windows pass and both
    /// counters (and the stored limit's mirror fields) advance, or the call
    /// fails and no counter moves.  A principal without an active limit
    /// spends unrestricted, with zero writes.  A rejected spend leaves one
    /// violation notification, the daily window taking precedence when both
    /// are exceeded; a non-positive amount is rejected before anything else,
    /// with no notification.
    pub fn enforce_spending_limit(&mut self, user: u64, amount: i128, now: u64) -> (r: Result<
        (),
        SpendingLimitError,
    >)
        requires
            old(self).wf(),
        ensures
            final(self).wf(),
            final(self).admin() == old(self).admin(),
            final(self).last_batch_id() == old(self).last_batch_id(),
            final(self).total_limits_updated() == old(self).total_limits_updated(),
            final(self).total_batches_processed() == old(self).total_batches_processed(),
            amount <= 0 <==> r == Err::<(), SpendingLimitError>(SpendingLimitError::InvalidAmount),
            amount <= 0 ==> *final(self) == *old(self),
            amount > 0 && !active_limit(old(self).limits(), user) ==> r is Ok && *final(self)
                == *old(self),
            amount > 0 && active_limit(old(self).limits(), user) ==> ({
                let l = old(self).limits()[user];
                let dl = daily_limit_of(l.monthly_limit);
                let cd = counter_at(old(self).daily(), user, day_of(now));
                let cm = counter_at(old(self).monthly(), user, month_of(now));
                let nd = sat_add(cd, amount);
                let nm = sat_add(cm, amount);
                if nd > dl || nm > l.monthly_limit {
                    &&& r == Err::<(), SpendingLimitError>(
                        if nd > dl {
                            SpendingLimitError::DailyLimitExceeded
                        } else {
                            SpendingLimitError::MonthlyLimitExceeded
                        },
                    )
                    &&& final(self).limits() == old(self).limits()
                    &&& final(self).daily() == old(self).daily()
                    &&& final(self).monthly() == old(self).monthly()
                    &&& final(self).event_log() == old(self).event_log().push(
                        violation_event(user, amount, dl, cd, l.monthly_limit, cm),
                    )
                } else {
                    &&& r is Ok
                    &&& final(self).daily() == old(self).daily().insert(
                        PairKey { a: user, b: day_of(now) },
                        nd,
                    )
                    &&& final(self).monthly() == old(self).monthly().insert(
                        PairKey { a: user, b: month_of(now) },
                        nm,
                    )
                    &&& final(self).limits() == old(self).limits().insert(
                        user,
                        SpendingLimit {
                            current_spending: nm,
                            updated_at: month_of(now),
                            ..l
                        },
                    )
                    &&& final(self).event_log() == old(self).event_log()
                }
            }),
    {
        if amount <= 0 {
            return Err(SpendingLimitError::InvalidAmount);
        }
        let limit = match self.store.get_limit(user) {
            Some(l) => l.clone(),
            None => {
                return Ok(());
            },
        };
        if !limit.is_active {
            return Ok(());
        }
        let day_id = now / SECONDS_PER_DAY;
        let month_id = now / SECONDS_PER_MONTH;
        let daily_key = DataKey::DailySpending(user, day_id);
        let monthly_key = DataKey::MonthlySpending(user, month_id);
        let current_daily = self.store.get_period_counter(daily_key);
        let current_monthly = self.store.get_period_counter(monthly_key);
        let new_daily = saturating_add_i128(current_daily, amount);
        let new_monthly = saturating_add_i128(current_monthly, amount);
        let daily_limit = derive_daily_limit(limit.monthly_limit);
        let daily_ok = new_daily <= daily_limit;
        let monthly_ok = new_monthly <= limit.monthly_limit;
        if !daily_ok || !monthly_ok {
            let remaining_daily: i128 = if current_daily >= daily_limit {
                0
            } else {
                daily_limit - current_daily
            };
            let remaining_monthly: i128 = if current_monthly >= limit.monthly_limit {
                0
            } else {
                limit.monthly_limit - current_monthly
            };
            self.events.push(
                LimitEvent::LimitExceeded {
                    user,
                    attempted: amount,
                    remaining_daily,
                    remaining_monthly,
                },
            );
            if !daily_ok {
                return Err(SpendingLimitError::DailyLimitExceeded);
            }
            return Err(SpendingLimitError::MonthlyLimitExceeded);
        }
        self.store.put_period_counter(daily_key, new_daily);
        self.store.put_period_counter(monthly_key, new_monthly);
        let mut updated = limit;
        updated.current_spending = new_monthly;
        updated.updated_at = month_id;
        self.store.put_limit(updated);
        Ok(())
    }
}


/// Law: across two successive successful batch calls the assigned batch id
/// strictly increases, and the first batch on a fresh store gets id 1.
///
/// The `requires` are exactly what `batch_update_spending_limits` ensures of
/// each successful call: the result's id is the stored id plus one, and the
/// stored id afterwards equals the result's id.
pub proof fn lemma_batch_id_strictly_increasing(
    c0: SpendingLimitsContract,
    c1: SpendingLimitsContract,
    c2: SpendingLimitsContract,
    b1: BatchLimitResult,
    b2: BatchLimitResult,
)
    requires
        c0.last_batch_id() < u64::MAX,
        b1.batch_id == c0.last_batch_id() + 1,
        c1.last_batch_id() == b1.batch_id,
        c1.last_batch_id() < u64::MAX,
        b2.batch_id == c1.last_batch_id() + 1,
        c2.last_batch_id() == b2.batch_id,
    ensures
        b2.batch_id > b1.batch_id,
        b1.batch_id >= 1,
        c0.last_batch_id() == 0 ==> b1.batch_id == 1,
{
}


/// Law: reading a principal's limit is idempotent — two reads of one state
/// without an intervening update return identical values.
///
/// The `requires` are exactly what `get_spending_limit` ensures of each of
/// two calls on the same state.
pub proof fn lemma_get_spending_limit_idempotent(
    c: SpendingLimitsContract,
    user: u64,
    r1: Option<SpendingLimit>,
    r2: Option<SpendingLimit>,
)
    requires
        r1 == (if c.limits().contains_key(user) {
            Some(c.limits()[user])
        } else {
            None::<SpendingLimit>
        }),
        r2 == (if c.limits().contains_key(user) {
            Some(c.limits()[user])
        } else {
            None::<SpendingLimit>
        }),
    ensures
        r1 == r2,
{
}

/// Law: a batch that holds a valid request for a principal leaves that
/// principal's stored limit active with `current_spending == 0`, whatever
/// record was stored before.
pub proof fn lemma_successful_update_resets_spending(
    m: Map<u64, SpendingLimit>,
    s: Seq<SpendingLimitRequest>,
    now: u64,
    user: u64,
)
    requires
        exists|i: int| 0 <= i < s.len() && req_valid(s[i]) && s[i].user == user,
    ensures
        apply_requests(m, s, now).contains_key(user),
        apply_requests(m, s, now)[user].current_spending == 0,
        apply_requests(m, s, now)[user].is_active,
    decreases s.len(),
{
    if !(req_valid(s.last()) && s.last().user == user) {
        let i = choose|i: int| 0 <= i < s.len() && req_valid(s[i]) && s[i].user == user;
        assert(s.drop_last()[i] == s[i]);
        lemma_successful_update_resets_spending(m, s.drop_last(), now, user);
    }
}

/// Law: a batch never touches the record of a principal it holds no valid
/// request for; in particular one request's failure never affects another
/// principal's stored state.
pub proof fn lemma_batch_leaves_others_alone(
    m: Map<u64, SpendingLimit>,
    s: Seq<SpendingLimitRequest>,
    now: u64,
    user: u64,
)
    requires
        forall|i: int| 0 <= i < s.len() ==> !(req_valid(#[trigger] s[i]) && s[i].user == user),
    ensures
        apply_requests(m, s, now).contains_key(user) == m.contains_key(user),
        m.contains_key(user) ==> apply_requests(m, s, now)[user] == m[user],
    decreases s.len(),
{
    if s.len() > 0 {
        assert forall|i: int| 0 <= i < s.drop_last().len() implies !(req_valid(
            #[trigger] s.drop_last()[i],
        ) && s.drop_last()[i].user == user) by {
            assert(s.drop_last()[i] == s[i]);
        }
        lemma_batch_leaves_others_alone(m, s.drop_last(), now, user);
    }
}

} // verus!
