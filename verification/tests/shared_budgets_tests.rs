// Integration tests for the shared budget contract.

use stellarspend::budget_types::BudgetSpendingRule;
use stellarspend::shared_budgets::{SharedBudgetContract, SharedBudgetError};

const ADMIN: u64 = 1;
const TOKEN: u64 = 7;

fn setup_test_env() -> SharedBudgetContract {
    let mut client = SharedBudgetContract::new();
    client.initialize(ADMIN);
    client
}

fn rule(applicable_to: u64, percentage_threshold: u32, requires_approval: bool) -> BudgetSpendingRule {
    BudgetSpendingRule {
        applicable_to,
        percentage_threshold,
        requires_approval,
        description: "rule".to_string(),
    }
}

// Initialization Tests

#[test]
fn test_initialize_contract() {
    let client = setup_test_env();

    assert_eq!(client.get_admin(), ADMIN);
    assert_eq!(client.get_total_budgets_created(), 0);
    assert_eq!(client.get_total_contribs_processed(), 0);
}

// Budget Creation Tests

#[test]
fn test_create_budget() {
    let mut client = setup_test_env();

    let creator = 10;
    let member1 = 11;
    let member2 = 12;
    let members = vec![member1, member2];

    let budget_name = "family_budget".to_string();

    let spending_rules = vec![BudgetSpendingRule {
        applicable_to: member1,
        percentage_threshold: 10,
        requires_approval: false,
        description: "small_purchases".to_string(),
    }];

    let budget_id = client
        .create_budget(creator, budget_name.clone(), members, TOKEN, spending_rules, 0)
        .unwrap();

    assert!(budget_id > 0);

    let budget = client.get_budget(budget_id).unwrap();
    assert_eq!(budget.name, budget_name);
    assert_eq!(budget.creator, creator);
    assert_eq!(budget.token, TOKEN);
    assert_eq!(budget.balance, 0);
    assert_eq!(budget.total_contributed, 0);
    assert_eq!(budget.is_active, true);
    assert!(client.is_budget_member(budget_id, member1));
    assert!(client.is_budget_member(budget_id, member2));
}

#[test]
fn test_contribute_to_budget() {
    let mut client = setup_test_env();

    let creator = 10;
    let contributor = 13;
    let member1 = 11;

    let budget_id = client
        .create_budget(creator, "vacation_fund".to_string(), vec![member1], TOKEN, Vec::new(), 0)
        .unwrap();

    // Initially budget should have 0 balance
    let budget_before = client.get_budget(budget_id).unwrap();
    assert_eq!(budget_before.balance, 0);

    // Contribute to the budget
    let contribution_amount = 100_000_000;
    client.contribute_to_budget(contributor, budget_id, contribution_amount, 0).unwrap();

    // Check that budget balance increased
    let budget_after = client.get_budget(budget_id).unwrap();
    assert_eq!(budget_after.balance, contribution_amount);
    assert_eq!(budget_after.total_contributed, contribution_amount);

    // Check that total contributions processed increased
    assert_eq!(client.get_total_contribs_processed(), 1);
}

#[test]
fn test_spend_from_budget() {
    let mut client = setup_test_env();

    let creator = 10;
    let member1 = 11;
    let recipient = 14;

    let budget_id = client
        .create_budget(creator, "project_fund".to_string(), vec![member1], TOKEN, Vec::new(), 0)
        .unwrap();

    // Contribute to budget first
    let contribution_amount = 100_000_000;
    client.contribute_to_budget(member1, budget_id, contribution_amount, 0).unwrap();

    // Spend from budget
    let expense_amount = 50_000_000;
    client.spend_from_budget(member1, budget_id, recipient, expense_amount).unwrap();

    // Check that budget balance decreased
    let budget_after = client.get_budget(budget_id).unwrap();
    assert_eq!(budget_after.balance, contribution_amount - expense_amount);
}

#[test]
fn test_add_member_to_budget() {
    let mut client = setup_test_env();

    let creator = 10;
    let existing_member = 11;

    let budget_id = client
        .create_budget(creator, "team_budget".to_string(), vec![existing_member], TOKEN, Vec::new(), 0)
        .unwrap();

    // Add new member
    let new_member = 15;
    client.add_member_to_budget(creator, budget_id, new_member).unwrap();

    // Check that new member is now part of budget
    assert!(client.is_budget_member(budget_id, new_member));
}

#[test]
fn test_add_spending_rule() {
    let mut client = setup_test_env();

    let creator = 10;
    let member1 = 11;

    let budget_id = client
        .create_budget(creator, "controlled_budget".to_string(), vec![member1], TOKEN, Vec::new(), 0)
        .unwrap();

    // Add spending rule
    let new_rule = BudgetSpendingRule {
        applicable_to: member1,
        percentage_threshold: 20,
        requires_approval: true,
        description: "approval_required".to_string(),
    };

    client.add_spending_rule(creator, budget_id, new_rule).unwrap();

    // Verify the rule was added by fetching the budget and checking its rules
    let budget = client.get_budget(budget_id).unwrap();
    assert!(budget.spending_rules.len() > 0);
}

#[test]
fn test_budget_events_emitted() {
    let mut client = setup_test_env();

    let creator = 10;
    let member1 = 11;

    client
        .create_budget(creator, "event_budget".to_string(), vec![member1], TOKEN, Vec::new(), 0)
        .unwrap();

    // Check that events were emitted
    let events = client.events();
    assert!(events.len() >= 1); // At least budget creation event

    // Check that events were emitted (simplified check)
    assert!(!events.is_empty());
}

#[test]
fn test_budget_stats_accumulate() {
    let mut client = setup_test_env();

    assert_eq!(client.get_total_budgets_created(), 0);

    let creator = 10;
    let member1 = 11;

    client
        .create_budget(creator, "stats_budget".to_string(), vec![member1], TOKEN, Vec::new(), 0)
        .unwrap();

    assert_eq!(client.get_total_budgets_created(), 1);

    // Create another budget
    client
        .create_budget(creator, "stats_budget2".to_string(), vec![member1], TOKEN, Vec::new(), 0)
        .unwrap();

    assert_eq!(client.get_total_budgets_created(), 2);
}

// Error Tests

#[test]
fn test_spend_without_sufficient_funds() {
    let mut client = setup_test_env();

    let creator = 10;
    let member1 = 11;
    let recipient = 14;

    let budget_id = client
        .create_budget(creator, "empty_budget".to_string(), vec![member1], TOKEN, Vec::new(), 0)
        .unwrap();

    // Try to spend without contributing anything
    let expense_amount = 50_000_000;
    assert_eq!(
        client.spend_from_budget(member1, budget_id, recipient, expense_amount),
        Err(SharedBudgetError::InsufficientBalance)
    );
}

#[test]
fn test_non_member_cannot_spend() {
    let mut client = setup_test_env();

    let creator = 10;
    let member1 = 11;
    let non_member = 16;
    let recipient = 14;

    let budget_id = client
        .create_budget(creator, "restricted_budget".to_string(), vec![member1], TOKEN, Vec::new(), 0)
        .unwrap();

    // Contribute to budget first
    let contribution_amount = 100_000_000;
    client.contribute_to_budget(member1, budget_id, contribution_amount, 0).unwrap();

    // Non-member tries to spend (should fail)
    let expense_amount = 50_000_000;
    assert_eq!(
        client.spend_from_budget(non_member, budget_id, recipient, expense_amount),
        Err(SharedBudgetError::MemberNotFound)
    );
}

#[test]
fn test_unauthorized_admin_function_rejected() {
    let mut client = setup_test_env();
    let unauthorized_user = 99;
    let new_admin = 98;
    assert_eq!(
        client.set_admin(unauthorized_user, new_admin),
        Err(SharedBudgetError::Unauthorized)
    );
    assert_eq!(client.get_admin(), ADMIN);
}

#[test]
fn test_spending_rule_blocks_large_spend() {
    let mut client = setup_test_env();
    let creator = 10;
    let member1 = 11;
    let recipient = 14;

    // member1 may spend at most 10% of the total contributed per spend
    let budget_id = client
        .create_budget(
            creator,
            "capped".to_string(),
            vec![member1],
            TOKEN,
            vec![rule(member1, 10, false)],
            0,
        )
        .unwrap();
    client.contribute_to_budget(member1, budget_id, 1_000, 0).unwrap();

    // 10% of 1,000 is 100: 100 passes, 101 is blocked.
    assert!(client.spend_from_budget(member1, budget_id, recipient, 100).is_ok());
    assert_eq!(
        client.spend_from_budget(member1, budget_id, recipient, 101),
        Err(SharedBudgetError::Unauthorized)
    );
    // A rule that routes big spends through approval does not block them here.
    let budget_id2 = client
        .create_budget(
            creator,
            "approved".to_string(),
            vec![member1],
            TOKEN,
            vec![rule(member1, 10, true)],
            0,
        )
        .unwrap();
    client.contribute_to_budget(member1, budget_id2, 1_000, 0).unwrap();
    assert!(client.spend_from_budget(member1, budget_id2, recipient, 500).is_ok());
}

#[test]
fn test_create_budget_validation_errors() {
    let mut client = setup_test_env();
    let members: Vec<u64> = (0..21).collect();
    assert_eq!(
        client.create_budget(10, "big".to_string(), members, TOKEN, Vec::new(), 0),
        Err(SharedBudgetError::TooManyMembers)
    );
    let rules: Vec<_> = (0..11).map(|_| rule(11, 5, false)).collect();
    assert_eq!(
        client.create_budget(10, "ruly".to_string(), vec![11], TOKEN, rules, 0),
        Err(SharedBudgetError::TooManyRules)
    );
    assert_eq!(
        client.create_budget(10, "pct".to_string(), vec![11], TOKEN, vec![rule(11, 101, false)], 0),
        Err(SharedBudgetError::InvalidPercentage)
    );
    assert_eq!(client.get_total_budgets_created(), 0);
}

#[test]
fn test_contribute_errors() {
    let mut client = setup_test_env();
    let budget_id = client
        .create_budget(10, "fund".to_string(), vec![11], TOKEN, Vec::new(), 0)
        .unwrap();
    assert_eq!(
        client.contribute_to_budget(11, budget_id, 0, 0),
        Err(SharedBudgetError::InvalidAmount)
    );
    assert_eq!(
        client.contribute_to_budget(11, 999, 50, 0),
        Err(SharedBudgetError::BudgetNotFound)
    );
}

#[test]
fn test_add_member_errors() {
    let mut client = setup_test_env();
    let budget_id = client
        .create_budget(10, "team".to_string(), vec![11], TOKEN, Vec::new(), 0)
        .unwrap();
    assert_eq!(
        client.add_member_to_budget(10, budget_id, 11),
        Err(SharedBudgetError::MemberAlreadyExists)
    );
    assert_eq!(
        client.add_member_to_budget(55, budget_id, 12),
        Err(SharedBudgetError::Unauthorized)
    );
    // the administrator may add members too
    assert!(client.add_member_to_budget(ADMIN, budget_id, 12).is_ok());
    assert_eq!(
        client.add_member_to_budget(10, 999, 13),
        Err(SharedBudgetError::BudgetNotFound)
    );
}

#[test]
fn test_member_cap_on_add() {
    let mut client = setup_test_env();
    let members: Vec<u64> = (100..120).collect();
    let budget_id = client
        .create_budget(10, "full".to_string(), members, TOKEN, Vec::new(), 0)
        .unwrap();
    assert_eq!(
        client.add_member_to_budget(10, budget_id, 50),
        Err(SharedBudgetError::TooManyMembers)
    );
}

#[test]
fn test_admin_check_before_initialization() {
    let mut client = SharedBudgetContract::new();
    let budget_id = client
        .create_budget(10, "early".to_string(), vec![11], TOKEN, Vec::new(), 0)
        .unwrap();
    // without an administrator, only the creator may manage the budget
    assert_eq!(
        client.add_member_to_budget(55, budget_id, 12),
        Err(SharedBudgetError::NotInitialized)
    );
    assert!(client.add_member_to_budget(10, budget_id, 12).is_ok());
    assert!(!client.is_initialized());
}
