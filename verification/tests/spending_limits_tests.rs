use stellarspend::limit_types::{ErrorCode, LimitEvent, LimitUpdateResult, SpendingLimitRequest,
    MAX_BATCH_SIZE};
use stellarspend::spending_limits::{derive_daily_limit, SpendingLimitError, SpendingLimitsContract};

const ADMIN: u64 = 1;
const DAY: u64 = 86_400;

fn request(user: u64, monthly_limit: i128) -> SpendingLimitRequest {
    SpendingLimitRequest { user, monthly_limit, category: "general".to_string() }
}

fn initialized() -> SpendingLimitsContract {
    let mut c = SpendingLimitsContract::new();
    c.initialize(ADMIN);
    c
}

#[test]
fn test_batch_counts_and_order() {
    let mut c = initialized();
    let requests = vec![request(10, 300), request(11, 0), request(12, 900)];
    let result = c.batch_update_spending_limits(ADMIN, requests, 5).unwrap();
    assert_eq!(result.total_requests, 3);
    assert_eq!(result.successful + result.failed, result.total_requests);
    assert_eq!(result.results.len(), 3);
    match &result.results[0] {
        LimitUpdateResult::Success(limit) => assert_eq!(limit.user, 10),
        _ => panic!("first request should succeed"),
    }
    match &result.results[2] {
        LimitUpdateResult::Success(limit) => assert_eq!(limit.user, 12),
        _ => panic!("third request should succeed"),
    }
}

#[test]
fn test_scenario_one_invalid_of_three() {
    let mut c = initialized();
    let requests = vec![request(10, 500), request(11, 0), request(12, 700)];
    let result = c.batch_update_spending_limits(ADMIN, requests, 1).unwrap();
    assert_eq!(result.successful, 2);
    assert_eq!(result.failed, 1);
    match &result.results[1] {
        LimitUpdateResult::Failure(user, code) => {
            assert_eq!(*user, 11);
            assert_eq!(*code, ErrorCode::InvalidAmount);
        },
        _ => panic!("second request should fail with the invalid-amount code"),
    }
}

#[test]
fn test_batch_ids_count_up_from_one() {
    let mut c = initialized();
    let r1 = c.batch_update_spending_limits(ADMIN, vec![request(10, 100)], 1).unwrap();
    let r2 = c.batch_update_spending_limits(ADMIN, vec![request(10, 200)], 2).unwrap();
    let r3 = c.batch_update_spending_limits(ADMIN, vec![request(11, 0)], 3).unwrap();
    assert_eq!(r1.batch_id, 1);
    assert_eq!(r2.batch_id, 2);
    assert_eq!(r3.batch_id, 3);
    assert_eq!(c.get_last_batch_id(), 3);
}

#[test]
fn test_update_resets_current_spending() {
    let mut c = initialized();
    c.batch_update_spending_limits(ADMIN, vec![request(10, 300)], 1).unwrap();
    c.enforce_spending_limit(10, 7, 100).unwrap();
    assert_eq!(c.get_spending_limit(10).unwrap().current_spending, 7);
    c.batch_update_spending_limits(ADMIN, vec![request(10, 600)], 2).unwrap();
    let limit = c.get_spending_limit(10).unwrap();
    assert_eq!(limit.current_spending, 0);
    assert_eq!(limit.monthly_limit, 600);
    assert!(limit.is_active);
}

#[test]
fn test_batch_preconditions() {
    let mut c = SpendingLimitsContract::new();
    assert!(matches!(
        c.batch_update_spending_limits(ADMIN, vec![request(10, 100)], 1),
        Err(SpendingLimitError::NotInitialized)
    ));
    c.initialize(ADMIN);
    assert!(matches!(
        c.batch_update_spending_limits(99, vec![request(10, 100)], 1),
        Err(SpendingLimitError::Unauthorized)
    ));
    assert!(matches!(
        c.batch_update_spending_limits(ADMIN, Vec::new(), 1),
        Err(SpendingLimitError::EmptyBatch)
    ));
    let oversized: Vec<_> = (0..(MAX_BATCH_SIZE as u64 + 1)).map(|u| request(u, 100)).collect();
    assert!(matches!(
        c.batch_update_spending_limits(ADMIN, oversized, 1),
        Err(SpendingLimitError::BatchTooLarge)
    ));
    // nothing persisted by the rejected calls
    assert_eq!(c.get_last_batch_id(), 0);
    assert_eq!(c.get_total_batches_processed(), 0);
    assert_eq!(c.get_total_limits_updated(), 0);
}

#[test]
fn test_batch_full_size_accepted() {
    let mut c = initialized();
    let requests: Vec<_> = (0..MAX_BATCH_SIZE as u64).map(|u| request(u, 50)).collect();
    let result = c.batch_update_spending_limits(ADMIN, requests, 1).unwrap();
    assert_eq!(result.successful, MAX_BATCH_SIZE);
    assert_eq!(result.failed, 0);
}

#[test]
fn test_invalid_category_code() {
    let mut c = initialized();
    let bad = SpendingLimitRequest { user: 10, monthly_limit: 100, category: String::new() };
    let result = c.batch_update_spending_limits(ADMIN, vec![bad], 1).unwrap();
    match &result.results[0] {
        LimitUpdateResult::Failure(_, code) => assert_eq!(*code, ErrorCode::InvalidCategory),
        _ => panic!("an empty category label should be rejected"),
    }
    let spaced = SpendingLimitRequest {
        user: 10,
        monthly_limit: 100,
        category: "week end".to_string(),
    };
    let result = c.batch_update_spending_limits(ADMIN, vec![spaced], 2).unwrap();
    assert_eq!(result.failed, 1);
}

#[test]
fn test_batch_metrics() {
    let mut c = initialized();
    let requests = vec![request(10, 300), request(11, 100), request(12, -5)];
    let result = c.batch_update_spending_limits(ADMIN, requests, 42).unwrap();
    assert_eq!(result.metrics.total_requests, 3);
    assert_eq!(result.metrics.successful_updates, 2);
    assert_eq!(result.metrics.failed_updates, 1);
    assert_eq!(result.metrics.total_limits_value, 400);
    assert_eq!(result.metrics.avg_limit_amount, 200);
    assert_eq!(result.metrics.processed_at, 42);
}

#[test]
fn test_batch_total_saturates() {
    let mut c = initialized();
    let requests = vec![request(10, i128::MAX), request(11, 7)];
    let result = c.batch_update_spending_limits(ADMIN, requests, 1).unwrap();
    assert_eq!(result.metrics.total_limits_value, i128::MAX);
    assert_eq!(result.successful, 2);
}

#[test]
fn test_running_totals_accumulate() {
    let mut c = initialized();
    c.batch_update_spending_limits(ADMIN, vec![request(10, 100), request(11, 0)], 1).unwrap();
    c.batch_update_spending_limits(ADMIN, vec![request(12, 100)], 2).unwrap();
    assert_eq!(c.get_total_batches_processed(), 2);
    assert_eq!(c.get_total_limits_updated(), 2);
}

#[test]
fn test_high_value_limit_events() {
    let mut c = initialized();
    let requests = vec![request(10, 100_000_000_000_000_000)];
    let result = c.batch_update_spending_limits(ADMIN, requests, 1).unwrap();
    assert_eq!(result.successful, 1);
    let mut saw_updated = false;
    let mut saw_high_value = false;
    for event in c.events().iter() {
        match event {
            LimitEvent::LimitUpdated { batch_id, limit } => {
                assert_eq!(*batch_id, result.batch_id);
                assert_eq!(limit.user, 10);
                saw_updated = true;
            },
            LimitEvent::HighValueLimit { user, monthly_limit, .. } => {
                assert_eq!(*user, 10);
                assert_eq!(*monthly_limit, 100_000_000_000_000_000);
                saw_high_value = true;
            },
            _ => {},
        }
    }
    assert!(saw_updated, "expected a per-item success notification");
    assert!(saw_high_value, "expected a high-value notification");
}

#[test]
fn test_batch_event_bracketing() {
    let mut c = initialized();
    let result = c.batch_update_spending_limits(ADMIN, vec![request(10, 90)], 9).unwrap();
    let events = c.events();
    assert!(matches!(
        events.first(),
        Some(LimitEvent::BatchStarted { batch_id, request_count })
            if *batch_id == result.batch_id && *request_count == 1
    ));
    assert!(matches!(
        events.last(),
        Some(LimitEvent::BatchCompleted { batch_id, successful: 1, failed: 0, total_value: 90 })
            if *batch_id == result.batch_id
    ));
}

#[test]
fn test_enforce_derived_daily_limit() {
    // Scenario: monthly limit 300 gives a derived daily cap of 10.
    let mut c = initialized();
    c.batch_update_spending_limits(ADMIN, vec![request(10, 300)], 1).unwrap();
    let now = 1_000;
    assert_eq!(c.enforce_spending_limit(10, 5, now), Ok(()));
    assert_eq!(
        c.enforce_spending_limit(10, 6, now),
        Err(SpendingLimitError::DailyLimitExceeded)
    );
    // The rejected spend persisted nothing: the day still has 5 of 10 used,
    // so 5 more pass and the next unit fails.
    assert_eq!(c.get_spending_limit(10).unwrap().current_spending, 5);
    assert_eq!(c.enforce_spending_limit(10, 5, now), Ok(()));
    assert_eq!(
        c.enforce_spending_limit(10, 1, now),
        Err(SpendingLimitError::DailyLimitExceeded)
    );
    assert_eq!(c.get_spending_limit(10).unwrap().current_spending, 10);
}

#[test]
fn test_enforce_small_monthly_limit_floors_daily_at_one() {
    let mut c = initialized();
    c.batch_update_spending_limits(ADMIN, vec![request(10, 29)], 1).unwrap();
    // 29 / 30 rounds to zero, so the daily cap is floored at 1.
    assert_eq!(c.enforce_spending_limit(10, 1, 0), Ok(()));
    assert_eq!(
        c.enforce_spending_limit(10, 1, 0),
        Err(SpendingLimitError::DailyLimitExceeded)
    );
}

#[test]
fn test_enforce_without_limit_is_unrestricted() {
    // Scenario: no limit configured means any positive amount passes with
    // zero storage writes.
    let mut c = initialized();
    assert_eq!(c.enforce_spending_limit(77, 1_000_000_000, 0), Ok(()));
    assert_eq!(c.enforce_spending_limit(77, i128::MAX, 5 * DAY), Ok(()));
    assert!(c.get_spending_limit(77).is_none());
    assert!(c.events().is_empty());
}

#[test]
fn test_enforce_rejects_non_positive_amount() {
    let mut c = initialized();
    c.batch_update_spending_limits(ADMIN, vec![request(10, 300)], 1).unwrap();
    assert_eq!(c.enforce_spending_limit(10, 0, 0), Err(SpendingLimitError::InvalidAmount));
    assert_eq!(c.enforce_spending_limit(10, -4, 0), Err(SpendingLimitError::InvalidAmount));
    assert_eq!(c.get_spending_limit(10).unwrap().current_spending, 0);
}

#[test]
fn test_enforce_monthly_cap() {
    let mut c = initialized();
    c.batch_update_spending_limits(ADMIN, vec![request(10, 300)], 1).unwrap();
    // Build up 50 of monthly spending over five days.
    for day in 0..5u64 {
        assert_eq!(c.enforce_spending_limit(10, 10, day * DAY), Ok(()));
    }
    // Tighten the limit mid-month: the daily cap becomes max(1, 45 / 30) = 1,
    // and the month's persisted counter of 50 already exceeds 45, so the
    // next spend passes the daily window but trips the monthly one.
    c.batch_update_spending_limits(ADMIN, vec![request(10, 45)], 2).unwrap();
    assert_eq!(
        c.enforce_spending_limit(10, 1, 5 * DAY),
        Err(SpendingLimitError::MonthlyLimitExceeded)
    );
    // A new month starts a fresh window.
    assert_eq!(c.enforce_spending_limit(10, 1, 30 * DAY), Ok(()));
    assert_eq!(c.get_spending_limit(10).unwrap().current_spending, 1);
}

#[test]
fn test_enforce_daily_precedence_over_monthly() {
    let mut c = initialized();
    c.batch_update_spending_limits(ADMIN, vec![request(10, 30)], 1).unwrap();
    // Daily cap is 1 and monthly limit is 30: a spend of 40 violates both,
    // and the daily violation is reported.
    assert_eq!(
        c.enforce_spending_limit(10, 40, 0),
        Err(SpendingLimitError::DailyLimitExceeded)
    );
}

#[test]
fn test_enforce_violation_event_carries_headroom() {
    let mut c = initialized();
    c.batch_update_spending_limits(ADMIN, vec![request(10, 300)], 1).unwrap();
    c.enforce_spending_limit(10, 4, 0).unwrap();
    let events_before = c.events().len();
    assert!(c.enforce_spending_limit(10, 9, 0).is_err());
    let events = c.events();
    assert_eq!(events.len(), events_before + 1);
    assert!(matches!(
        events.last(),
        Some(LimitEvent::LimitExceeded {
            user: 10,
            attempted: 9,
            remaining_daily: 6,
            remaining_monthly: 296,
        })
    ));
}

#[test]
fn test_get_spending_limit_idempotent() {
    let mut c = initialized();
    c.batch_update_spending_limits(ADMIN, vec![request(10, 300)], 1).unwrap();
    c.enforce_spending_limit(10, 5, 0).unwrap();
    let first = c.get_spending_limit(10).unwrap();
    let second = c.get_spending_limit(10).unwrap();
    assert_eq!(first.user, second.user);
    assert_eq!(first.monthly_limit, second.monthly_limit);
    assert_eq!(first.current_spending, second.current_spending);
    assert_eq!(first.category, second.category);
    assert_eq!(first.updated_at, second.updated_at);
    assert_eq!(first.is_active, second.is_active);
}

#[test]
fn test_set_admin_hands_role_over() {
    let mut c = initialized();
    assert_eq!(c.set_admin(99, 2), Err(SpendingLimitError::Unauthorized));
    assert_eq!(c.set_admin(ADMIN, 2), Ok(()));
    assert_eq!(c.get_admin(), 2);
    assert!(matches!(
        c.batch_update_spending_limits(ADMIN, vec![request(10, 100)], 1),
        Err(SpendingLimitError::Unauthorized)
    ));
    assert!(c.batch_update_spending_limits(2, vec![request(10, 100)], 1).is_ok());
}

#[test]
fn test_duplicate_user_in_batch_later_wins() {
    let mut c = initialized();
    let requests = vec![request(10, 100), request(10, 700)];
    let result = c.batch_update_spending_limits(ADMIN, requests, 1).unwrap();
    assert_eq!(result.successful, 2);
    assert_eq!(c.get_spending_limit(10).unwrap().monthly_limit, 700);
}

#[test]
fn test_derived_daily_limit_formula() {
    assert_eq!(derive_daily_limit(300), 10);
    assert_eq!(derive_daily_limit(30), 1);
    assert_eq!(derive_daily_limit(29), 1);
    assert_eq!(derive_daily_limit(1), 1);
    assert_eq!(derive_daily_limit(0), 0);
    assert_eq!(derive_daily_limit(-10), 0);
    assert_eq!(derive_daily_limit(31), 1);
    assert_eq!(derive_daily_limit(60), 2);
}
