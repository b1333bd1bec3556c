//! Data model of the spending-limit engine: configured limits, batch update
//! requests and results, the storage-key space, and the event vocabulary.

use vstd::prelude::*;

verus! {

/// Most requests one batch call accepts.
pub const MAX_BATCH_SIZE: u32 = 100;

/// A monthly limit at or above this value additionally raises a
/// high-value notification when it is set.
pub const HIGH_VALUE_THRESHOLD: i128 = 10_000_000_000_000_000;

/// Seconds in one logical day.
pub const SECONDS_PER_DAY: u64 = 86_400;

/// Seconds in one logical month of thirty days.
pub const SECONDS_PER_MONTH: u64 = 86_400 * 30;

/// One principal's configured spending limit.
///
/// Invariant of stored records: `monthly_limit > 0` whenever `is_active`.
/// `current_spending` mirrors the running monthly counter for external
/// readers; `updated_at` is the period marker of the last touch.
#[derive(Debug)]
pub struct SpendingLimit {
    pub user: u64,
    pub monthly_limit: i128,
    pub current_spending: i128,
    pub category: String,
    pub updated_at: u64,
    pub is_active: bool,
}

impl Clone for SpendingLimit {
    fn clone(&self) -> (r: Self)
        ensures
            r == *self,
    {
        SpendingLimit {
            user: self.user,
            monthly_limit: self.monthly_limit,
            current_spending: self.current_spending,
            category: self.category.clone(),
            updated_at: self.updated_at,
            is_active: self.is_active,
        }
    }
}

/// One item of a batch update: the principal, the monthly limit to set, and
/// the opaque category label.
#[derive(Debug)]
pub struct SpendingLimitRequest {
    pub user: u64,
    pub monthly_limit: i128,
    pub category: String,
}

impl Clone for SpendingLimitRequest {
    fn clone(&self) -> (r: Self)
        ensures
            r == *self,
    {
        SpendingLimitRequest {
            user: self.user,
            monthly_limit: self.monthly_limit,
            category: self.category.clone(),
        }
    }
}

/// Why a single request inside a batch was rejected.
#[derive(Clone, Copy, PartialEq, Eq, Structural, Debug)]
pub enum ErrorCode {
    /// The monthly limit is not positive.
    InvalidAmount,
    /// The category label is not well formed.
    InvalidCategory,
}

/// The outcome of one request inside a batch, in request order.
#[derive(Debug)]
pub enum LimitUpdateResult {
    Success(SpendingLimit),
    Failure(u64, ErrorCode),
}

/// Aggregate figures over one batch call.
#[derive(Clone, Copy, PartialEq, Eq, Structural, Debug)]
pub struct BatchLimitMetrics {
    pub total_requests: u32,
    pub successful_updates: u32,
    pub failed_updates: u32,
    /// Sum of the successfully applied monthly limits, saturating at
    /// `i128::MAX`.
    pub total_limits_value: i128,
    /// Integer-truncated mean over the successes; 0 when none succeeded.
    pub avg_limit_amount: i128,
    /// Ledger sequence number at processing time.
    pub processed_at: u64,
}

/// What one batch call returns: per-item outcomes in input order plus the
/// aggregate metrics.
#[derive(Debug)]
pub struct BatchLimitResult {
    pub batch_id: u64,
    pub total_requests: u32,
    pub successful: u32,
    pub failed: u32,
    pub results: Vec<LimitUpdateResult>,
    pub metrics: BatchLimitMetrics,
}

/// The contract's persistent key space.
#[derive(Clone, Copy, PartialEq, Eq, Structural, Debug)]
pub enum DataKey {
    Admin,
    LastBatchId,
    TotalLimitsUpdated,
    TotalBatchesProcessed,
    /// A principal's configured limit.
    SpendingLimit(u64),
    /// A principal's running total for one day id.
    DailySpending(u64, u64),
    /// A principal's running total for one month id.
    MonthlySpending(u64, u64),
}

/// A notification the engine hands to the host's event log.
#[derive(Debug)]
pub enum LimitEvent {
    BatchStarted { batch_id: u64, request_count: u32 },
    LimitUpdated { batch_id: u64, limit: SpendingLimit },
    LimitUpdateFailed { batch_id: u64, user: u64, error: ErrorCode },
    HighValueLimit { batch_id: u64, user: u64, monthly_limit: i128 },
    BatchCompleted { batch_id: u64, successful: u32, failed: u32, total_value: i128 },
    LimitExceeded { user: u64, attempted: i128, remaining_daily: i128, remaining_monthly: i128 },
}

/// A character a category label may hold: a letter, a digit or an
/// underscore.
pub open spec fn valid_label_char(c: char) -> bool {
    (('a' as u32) <= (c as u32) && (c as u32) <= ('z' as u32)) || (('A' as u32) <= (c as u32) && (c
        as u32) <= ('Z' as u32)) || (('0' as u32) <= (c as u32) && (c as u32) <= ('9' as u32)) || c
        == '_'
}

/// A well-formed category label: non-empty, at most 32 characters, letters,
/// digits and underscores only.
pub open spec fn valid_label(s: Seq<char>) -> bool {
    1 <= s.len() <= 32 && forall|i: int| 0 <= i < s.len() ==> valid_label_char(s[i])
}

/// A request the validator accepts: a positive monthly limit and a
/// well-formed category label.
pub open spec fn req_valid(r: SpendingLimitRequest) -> bool {
    r.monthly_limit > 0 && valid_label(r.category@)
}

/// The code a rejected request is tagged with; the amount check comes first.
pub open spec fn req_error(r: SpendingLimitRequest) -> ErrorCode {
    if r.monthly_limit <= 0 {
        ErrorCode::InvalidAmount
    } else {
        ErrorCode::InvalidCategory
    }
}

/// The fresh record a successful update stores: spending reset to zero,
/// active, stamped with the current period marker.
pub open spec fn limit_for(r: SpendingLimitRequest, now: u64) -> SpendingLimit {
    SpendingLimit {
        user: r.user,
        monthly_limit: r.monthly_limit,
        current_spending: 0,
        category: r.category,
        updated_at: now,
        is_active: true,
    }
}

/// The per-item outcome a batch records for one request.
pub open spec fn result_for(r: SpendingLimitRequest, now: u64) -> LimitUpdateResult {
    if req_valid(r) {
        LimitUpdateResult::Success(limit_for(r, now))
    } else {
        LimitUpdateResult::Failure(r.user, req_error(r))
    }
}

} // verus!
