// Tests for fraud detection logic.

use stellarspend::fraud::{FraudConfig, FraudContract};

#[test]
fn test_flag_abnormal_transaction() {
    let mut contract = FraudContract::new();
    let user = 1;
    let amount = 20_000; // Above threshold
    let flagged = contract.check_transaction(user, amount, 0);
    assert!(flagged);
    let events = contract.events();
    assert!(!events.is_empty());
    // Check event details
    let found = events.iter().any(|e| e.user == user && e.amount == amount && e.abnormal_size);
    assert!(found);
}

#[test]
fn test_normal_transaction() {
    let mut contract = FraudContract::new();
    let user = 1;
    let amount = 5_000; // Below threshold
    let flagged = contract.check_transaction(user, amount, 0);
    assert!(!flagged);
    assert!(contract.events().is_empty());
}

#[test]
fn test_daily_limit_detection() {
    let mut contract = FraudContract::new();
    let user = 1;
    // Simulate multiple transactions to exceed daily limit
    let amounts = vec![50_000, 60_000];
    let mut flagged = false;
    for amt in amounts {
        flagged = contract.check_transaction(user, amt, 0);
    }
    assert!(flagged);
    let found = contract.events().iter().any(|e| e.daily_limit);
    assert!(found);
}

#[test]
fn test_daily_total_rolls_over_by_day() {
    let mut contract = FraudContract::new();
    let user = 1;
    let day = 86_400;
    // Eleven small transactions of 9,500 in one day reach 104,500: the
    // eleventh crosses the daily volume threshold without being abnormal
    // by itself.
    for i in 0..10u64 {
        assert!(!contract.check_transaction(user, 9_500, i));
    }
    assert!(contract.check_transaction(user, 9_500, 10));
    let last = contract.events().last().unwrap();
    assert!(last.daily_limit);
    assert!(!last.abnormal_size);
    // A fresh day starts a fresh total.
    assert!(!contract.check_transaction(user, 9_500, day));
}

#[test]
fn test_default_config_thresholds() {
    let config = FraudConfig::default();
    assert_eq!(config.threshold, 10_000);
    assert_eq!(config.max_daily, 100_000);
}
