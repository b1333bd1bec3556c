//! Types and events for shared budget management.

use vstd::prelude::*;

verus! {

/// Maximum number of members allowed in a budget.
pub const MAX_BUDGET_MEMBERS: u32 = 20;

/// Maximum number of spending rules allowed in a budget.
pub const MAX_SPENDING_RULES: u32 = 10;

/// Represents a spending rule for a budget.
pub struct BudgetSpendingRule {
    /// Principal this rule applies to.
    pub applicable_to: u64,
    /// Percentage threshold for the rule.
    pub percentage_threshold: u32,
    /// Whether approval is required for spending beyond the threshold.
    pub requires_approval: bool,
    /// Description of the rule.
    pub description: String,
}

impl Clone for BudgetSpendingRule {
    fn clone(&self) -> (r: Self)
        ensures
            r == *self,
    {
        BudgetSpendingRule {
            applicable_to: self.applicable_to,
            percentage_threshold: self.percentage_threshold,
            requires_approval: self.requires_approval,
            description: self.description.clone(),
        }
    }
}

/// Represents a shared budget with multiple members.
pub struct Budget {
    /// Unique identifier for the budget.
    pub id: u64,
    /// Name of the budget.
    pub name: String,
    /// Creator of the budget.
    pub creator: u64,
    /// Token the budget is denominated in.
    pub token: u64,
    /// Members of the budget.
    pub members: Vec<u64>,
    /// Current balance of the budget.
    pub balance: i128,
    /// Total amount contributed to the budget.
    pub total_contributed: i128,
    /// Spending rules for the budget.
    pub spending_rules: Vec<BudgetSpendingRule>,
    /// Whether the budget is active.
    pub is_active: bool,
    /// Timestamp when the budget was created.
    pub created_at: u64,
}

/// Whether two budget records carry the same data: equal fields, with the
/// member list and rule list compared by contents.
pub open spec fn budget_like(a: Budget, b: Budget) -> bool {
    &&& b.id == a.id
    &&& b.name == a.name
    &&& b.creator == a.creator
    &&& b.token == a.token
    &&& b.members@ == a.members@
    &&& b.balance == a.balance
    &&& b.total_contributed == a.total_contributed
    &&& b.spending_rules@ == a.spending_rules@
    &&& b.is_active == a.is_active
    &&& b.created_at == a.created_at
}

impl Clone for Budget {
    fn clone(&self) -> (r: Self)
        ensures
            budget_like(*self, r),
    {
        let r = Budget {
            id: self.id,
            name: self.name.clone(),
            creator: self.creator,
            token: self.token,
            members: self.members.clone(),
            balance: self.balance,
            total_contributed: self.total_contributed,
            spending_rules: self.spending_rules.clone(),
            is_active: self.is_active,
            created_at: self.created_at,
        };
        proof {
            assert(r.members@ =~= self.members@);
            assert(r.spending_rules@ =~= self.spending_rules@);
        }
        r
    }
}

/// Represents a contribution to a shared budget.
#[derive(Clone, Copy, PartialEq, Eq, Structural, Debug)]
pub struct BudgetContribution {
    /// ID of the budget this contribution belongs to.
    pub budget_id: u64,
    /// The contributing principal.
    pub contributor: u64,
    /// Amount contributed.
    pub amount: i128,
    /// Timestamp of the contribution.
    pub timestamp: u64,
}

/// Storage keys for contract state.
#[derive(Clone, Copy, PartialEq, Eq, Structural, Debug)]
pub enum DataKey {
    /// Administrator principal.
    Admin,
    /// Budget details by ID.
    Budget(u64),
    /// Whether a principal is a member of a budget.
    BudgetMember(u64, u64),
    /// Contribution details by ID.
    Contribution(u64),
    /// Total number of budgets created.
    TotalBudgetsCreated,
    /// Total number of contributions processed.
    TotalContributionsProcessed,
}

/// A notification the shared-budget contract hands to the host's event log.
pub enum SharedBudgetEvent {
    BudgetCreated { budget_id: u64, creator: u64, members: Vec<u64>, token: u64 },
    ContributionAdded { budget_id: u64, contributor: u64, amount: i128 },
    AllocationFailure { batch_id: u64, recipient: u64, amount: i128, error_code: u32 },
    BatchCompleted { batch_id: u64, successful: u32, failed: u32, total_allocated: i128 },
    SpendingRuleAdded {
        budget_id: u64,
        applicable_to: u64,
        percentage_threshold: u32,
        requires_approval: bool,
    },
    ExpenseIncurred { budget_id: u64, spender: u64, recipient: u64, amount: i128 },
}

/// Whether an event is the creation notice for the given budget, carrying
/// the given member list.
pub open spec fn is_budget_created_event(
    e: SharedBudgetEvent,
    budget_id: u64,
    creator: u64,
    members: Seq<u64>,
    token: u64,
) -> bool {
    &&& e is BudgetCreated
    &&& e->BudgetCreated_budget_id == budget_id
    &&& e->BudgetCreated_creator == creator
    &&& e->BudgetCreated_members@ == members
    &&& e->BudgetCreated_token == token
}

/// Events emitted by the shared budget contract; each call appends one
/// record to the injected event log.
pub struct SharedBudgetEvents;

impl SharedBudgetEvents {
    /// Event emitted when a budget is created.
    pub fn budget_created(
        log: &mut Vec<SharedBudgetEvent>,
        budget_id: u64,
        creator: u64,
        members: &Vec<u64>,
        token: u64,
    )
        ensures
            final(log)@.len() == old(log)@.len() + 1,
            final(log)@.drop_last() == old(log)@,
            is_budget_created_event(final(log)@.last(), budget_id, creator, members@, token),
    {
        let ev = SharedBudgetEvent::BudgetCreated {
            budget_id,
            creator,
            members: members.clone(),
            token,
        };
        proof {
            assert(ev->BudgetCreated_members@ =~= members@);
        }
        log.push(ev);
        proof {
            assert(log@.drop_last() =~= old(log)@);
        }
    }

    /// Event emitted when a contribution is added to a budget.
    pub fn contribution_added(
        log: &mut Vec<SharedBudgetEvent>,
        budget_id: u64,
        contributor: u64,
        amount: i128,
    )
        ensures
            final(log)@ == old(log)@.push(
                SharedBudgetEvent::ContributionAdded { budget_id, contributor, amount },
            ),
    {
        log.push(SharedBudgetEvent::ContributionAdded { budget_id, contributor, amount });
    }

    /// Event emitted when an allocation fails for a recipient.
    pub fn allocation_failure(
        log: &mut Vec<SharedBudgetEvent>,
        batch_id: u64,
        recipient: u64,
        amount: i128,
        error_code: u32,
    )
        ensures
            final(log)@ == old(log)@.push(
                SharedBudgetEvent::AllocationFailure { batch_id, recipient, amount, error_code },
            ),
    {
        log.push(SharedBudgetEvent::AllocationFailure { batch_id, recipient, amount, error_code });
    }

    /// Event emitted when allocation batch processing completes.
    pub fn batch_completed(
        log: &mut Vec<SharedBudgetEvent>,
        batch_id: u64,
        successful: u32,
        failed: u32,
        total_allocated: i128,
    )
        ensures
            final(log)@ == old(log)@.push(
                SharedBudgetEvent::BatchCompleted { batch_id, successful, failed, total_allocated },
            ),
    {
        log.push(SharedBudgetEvent::BatchCompleted { batch_id, successful, failed, total_allocated });
    }

    /// Event emitted when a spending rule is added to a budget.
    pub fn spending_rule_added(
        log: &mut Vec<SharedBudgetEvent>,
        budget_id: u64,
        rule: &BudgetSpendingRule,
    )
        ensures
            final(log)@ == old(log)@.push(
                SharedBudgetEvent::SpendingRuleAdded {
                    budget_id,
                    applicable_to: rule.applicable_to,
                    percentage_threshold: rule.percentage_threshold,
                    requires_approval: rule.requires_approval,
                },
            ),
    {
        log.push(
            SharedBudgetEvent::SpendingRuleAdded {
                budget_id,
                applicable_to: rule.applicable_to,
                percentage_threshold: rule.percentage_threshold,
                requires_approval: rule.requires_approval,
            },
        );
    }

    /// Event emitted when a member spends from a budget.
    pub fn expense_incurred(
        log: &mut Vec<SharedBudgetEvent>,
        budget_id: u64,
        spender: u64,
        recipient: u64,
        amount: i128,
    )
        ensures
            final(log)@ == old(log)@.push(
                SharedBudgetEvent::ExpenseIncurred { budget_id, spender, recipient, amount },
            ),
    {
        log.push(SharedBudgetEvent::ExpenseIncurred { budget_id, spender, recipient, amount });
    }
}

} // verus!
