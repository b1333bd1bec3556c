//! Shared budgets: multi-member pools with contributions, rule-governed
//! spending, and member management.  Token movement in and out of the pool
//! is the host's work; the contract owns the balances and the rules.

use vstd::prelude::*;
use vstd::arithmetic::div_mod::{lemma_fundamental_div_mod, lemma_fundamental_div_mod_converse,
    lemma_mod_bound};
use crate::budget_types::{budget_like, is_budget_created_event, Budget, BudgetContribution,
    BudgetSpendingRule, SharedBudgetEvent, SharedBudgetEvents, MAX_BUDGET_MEMBERS,
    MAX_SPENDING_RULES};
use crate::table::{PairKey, Table};
use crate::validation::{validate_amount, validate_percentage};

verus! {

/// Error codes for the shared budget contract.
#[derive(Clone, Copy, PartialEq, Eq, Structural, Debug)]
pub enum SharedBudgetError {
    /// Contract not initialized.
    NotInitialized,
    /// Caller is not authorized.
    Unauthorized,
    /// Budget does not exist.
    BudgetNotFound,
    /// Member already exists in budget.
    MemberAlreadyExists,
    /// Member not found in budget.
    MemberNotFound,
    /// Spending rule not found.
    RuleNotFound,
    /// Invalid amount.
    InvalidAmount,
    /// Insufficient balance.
    InsufficientBalance,
    /// Invalid percentage value.
    InvalidPercentage,
    /// Budget is already active.
    BudgetAlreadyActive,
    /// Budget is not active.
    BudgetNotActive,
    /// Too many members in budget.
    TooManyMembers,
    /// Too many spending rules.
    TooManyRules,
}

/// Every rule's percentage threshold is a valid percentage.
pub open spec fn all_percentages_ok(rules: Seq<BudgetSpendingRule>) -> bool {
    forall|i: int| 0 <= i < rules.len() ==> (#[trigger] rules[i]).percentage_threshold <= 100
}

/// The spending threshold one rule grants: the rule's percentage of the
/// total contributed so far, rounded down; zero while nothing has been
/// contributed.
pub open spec fn rule_threshold(total_contributed: i128, percentage: u32) -> int {
    if total_contributed > 0 {
        (total_contributed * percentage) / 100
    } else {
        0
    }
}

/// Whether some rule forbids this spend: the rule names the spender, the
/// amount passes the rule's threshold, and the rule does not route such
/// spends through approval.
pub open spec fn rules_violation(
    rules: Seq<BudgetSpendingRule>,
    total_contributed: i128,
    spender: u64,
    amount: i128,
) -> bool {
    exists|i: int|
        0 <= i < rules.len() && (#[trigger] rules[i]).applicable_to == spender && amount
            > rule_threshold(total_contributed, rules[i].percentage_threshold)
            && !rules[i].requires_approval
}

/// The fresh record `create_budget` stores.
pub open spec fn new_budget(
    id: u64,
    name: String,
    creator: u64,
    token: u64,
    members: Vec<u64>,
    spending_rules: Vec<BudgetSpendingRule>,
    now: u64,
) -> Budget {
    Budget {
        id,
        name,
        creator,
        token,
        members,
        balance: 0,
        total_contributed: 0,
        spending_rules,
        is_active: true,
        created_at: now,
    }
}

/// The member-flag map after marking every listed principal a member of the
/// budget.
pub open spec fn add_members(m: Map<PairKey, bool>, budget_id: u64, ms: Seq<u64>) -> Map<
    PairKey,
    bool,
>
    decreases ms.len(),
{
    if ms.len() == 0 {
        m
    } else {
        add_members(m, budget_id, ms.drop_last()).insert(
            PairKey { a: budget_id, b: ms.last() },
            true,
        )
    }
}

/// Well-formedness of the stored budgets: each sits under its own id, holds
/// non-negative totals, and carries only valid rule percentages.
pub open spec fn budgets_ok(m: Map<u64, Budget>) -> bool {
    forall|k: u64| #[trigger]
        m.contains_key(k) ==> m[k].id == k && m[k].balance >= 0 && m[k].total_contributed >= 0
            && all_percentages_ok(m[k].spending_rules@)
}

/// The two maps agree everywhere but possibly at `k`, which the second
/// holds.
pub open spec fn budgets_match_except(m0: Map<u64, Budget>, m1: Map<u64, Budget>, k: u64) -> bool {
    &&& m1.contains_key(k)
    &&& forall|j: u64| j != k ==> (#[trigger] m1.contains_key(j)) == m0.contains_key(j)
    &&& forall|j: u64| j != k && m0.contains_key(j) ==> (#[trigger] m1[j]) == m0[j]
}

/// The second budget is the first with both running totals raised by the
/// contribution.
pub open spec fn budget_after_contribution(a: Budget, b: Budget, amount: i128) -> bool {
    &&& b.id == a.id
    &&& b.name == a.name
    &&& b.creator == a.creator
    &&& b.token == a.token
    &&& b.members@ == a.members@
    &&& b.balance == a.balance + amount
    &&& b.total_contributed == a.total_contributed + amount
    &&& b.spending_rules@ == a.spending_rules@
    &&& b.is_active == a.is_active
    &&& b.created_at == a.created_at
}

/// The second budget is the first with the balance lowered by the spend.
pub open spec fn budget_after_spend(a: Budget, b: Budget, amount: i128) -> bool {
    &&& b.id == a.id
    &&& b.name == a.name
    &&& b.creator == a.creator
    &&& b.token == a.token
    &&& b.members@ == a.members@
    &&& b.balance == a.balance - amount
    &&& b.total_contributed == a.total_contributed
    &&& b.spending_rules@ == a.spending_rules@
    &&& b.is_active == a.is_active
    &&& b.created_at == a.created_at
}

/// The second budget is the first with the new member appended.
pub open spec fn budget_after_new_member(a: Budget, b: Budget, member: u64) -> bool {
    &&& b.id == a.id
    &&& b.name == a.name
    &&& b.creator == a.creator
    &&& b.token == a.token
    &&& b.members@ == a.members@.push(member)
    &&& b.balance == a.balance
    &&& b.total_contributed == a.total_contributed
    &&& b.spending_rules@ == a.spending_rules@
    &&& b.is_active == a.is_active
    &&& b.created_at == a.created_at
}

/// The second budget is the first with the new rule appended.
pub open spec fn budget_after_new_rule(a: Budget, b: Budget, rule: BudgetSpendingRule) -> bool {
    &&& b.id == a.id
    &&& b.name == a.name
    &&& b.creator == a.creator
    &&& b.token == a.token
    &&& b.members@ == a.members@
    &&& b.balance == a.balance
    &&& b.total_contributed == a.total_contributed
    &&& b.spending_rules@ == a.spending_rules@.push(rule)
    &&& b.is_active == a.is_active
    &&& b.created_at == a.created_at
}

proof fn lemma_add_members_take_step(m: Map<PairKey, bool>, budget_id: u64, ms: Seq<u64>, i: int)
    requires
        0 <= i < ms.len(),
    ensures
        add_members(m, budget_id, ms.take(i + 1)) == add_members(m, budget_id, ms.take(i)).insert(
            PairKey { a: budget_id, b: ms[i] },
            true,
        ),
{
    assert(ms.take(i + 1).drop_last() =~= ms.take(i));
    assert(ms.take(i + 1).last() == ms[i]);
}

/// Computes a rule's spending threshold: `total_contributed * percentage /
/// 100`, rounded down, exactly, with no intermediate overflow.
fn rule_threshold_amount(total_contributed: i128, percentage: u32) -> (r: i128)
    requires
        percentage <= 100,
    ensures
        r == rule_threshold(total_contributed, percentage),
{
    if total_contributed <= 0 {
        return 0;
    }
    let t = total_contributed as u128;
    let p = percentage as u128;
    let q = t / 100;
    let rem = t % 100;
    proof {
        lemma_fundamental_div_mod(t as int, 100);
        lemma_mod_bound(t as int, 100);
        assert((q as int) * (p as int) <= (q as int) * 100) by (nonlinear_arith)
            requires
                p as int <= 100,
                q as int >= 0,
        ;
        assert((rem as int) * (p as int) <= 9900) by (nonlinear_arith)
            requires
                rem as int <= 99,
                0 <= p as int <= 100,
        ;
    }
    let high = q * p;
    let lowprod = rem * p;
    let low = lowprod / 100;
    proof {
        lemma_fundamental_div_mod(lowprod as int, 100);
        lemma_mod_bound(lowprod as int, 100);
        let tt = t as int;
        let pp = p as int;
        let qq = q as int;
        let rr = rem as int;
        let hh = lowprod as int / 100;
        let r2 = lowprod as int % 100;
        assert(tt * pp == 100 * (qq * pp + hh) + r2) by (nonlinear_arith)
            requires
                tt == 100 * qq + rr,
                rr * pp == 100 * hh + r2,
                lowprod as int == rr * pp,
        ;
        lemma_fundamental_div_mod_converse(tt * pp, 100, qq * pp + hh, r2);
        assert(tt * pp <= 100 * tt) by (nonlinear_arith)
            requires
                0 <= pp <= 100,
                tt >= 0,
        ;
    }
    let thr = high + low;
    thr as i128
}

/// Decides whether any spending rule forbids the spend.
fn spending_rules_allow(budget: &Budget, spender: u64, amount: i128) -> (ok: bool)
    requires
        all_percentages_ok(budget.spending_rules@),
    ensures
        ok == !rules_violation(budget.spending_rules@, budget.total_contributed, spender, amount),
{
    let n = budget.spending_rules.len();
    let mut i: usize = 0;
    while i < n
        invariant
            0 <= i <= n,
            n == budget.spending_rules@.len(),
            all_percentages_ok(budget.spending_rules@),
            forall|j: int|
                0 <= j < i ==> !((#[trigger] budget.spending_rules@[j]).applicable_to == spender
                    && amount > rule_threshold(
                    budget.total_contributed,
                    budget.spending_rules@[j].percentage_threshold,
                ) && !budget.spending_rules@[j].requires_approval),
        decreases n - i,
    {
        let rule = &budget.spending_rules[i];
        if rule.applicable_to == spender {
            let threshold = rule_threshold_amount(budget.total_contributed, rule.percentage_threshold);
            if amount > threshold && !rule.requires_approval {
                return false;
            }
        }
        i = i + 1;
    }
    true
}

/// The shared-budget contract's state: the administrator, the budgets, the
/// member flags, the contribution records, the running totals, and the
/// emitted notifications.
pub struct SharedBudgetContract {
    admin: Option<u64>,
    total_budgets_created: u64,
    total_contributions_processed: u64,
    budgets: Table<u64, Budget>,
    members: Table<PairKey, bool>,
    contributions: Table<u64, BudgetContribution>,
    events: Vec<SharedBudgetEvent>,
}

impl SharedBudgetContract {
    /// The administrator principal, once initialized.
    pub closed spec fn admin(&self) -> Option<u64> {
        self.admin
    }

    /// Total number of budgets created; also the last assigned budget id.
    pub closed spec fn total_budgets_created(&self) -> u64 {
        self.total_budgets_created
    }

    /// Total number of contributions processed; also the last contribution
    /// id.
    pub closed spec fn total_contributions_processed(&self) -> u64 {
        self.total_contributions_processed
    }

    /// The stored budgets, by id.
    pub closed spec fn budgets(&self) -> Map<u64, Budget> {
        self.budgets@
    }

    /// The member flags, by (budget id, principal).
    pub closed spec fn members(&self) -> Map<PairKey, bool> {
        self.members@
    }

    /// The contribution records, by id.
    pub closed spec fn contributions(&self) -> Map<u64, BudgetContribution> {
        self.contributions@
    }

    /// The notifications emitted so far, oldest first.
    pub closed spec fn event_log(&self) -> Seq<SharedBudgetEvent> {
        self.events@
    }

    /// Validity of the state.
    pub closed spec fn wf(&self) -> bool {
        &&& self.budgets.wf()
        &&& self.members.wf()
        &&& self.contributions.wf()
        &&& budgets_ok(self.budgets@)
    }

    /// A contract nothing has happened to yet.
    pub fn new() -> (r: Self)
        ensures
            r.wf(),
            r.admin() is None,
            r.total_budgets_created() == 0,
            r.total_contributions_processed() == 0,
            r.budgets() == Map::<u64, Budget>::empty(),
            r.members() == Map::<PairKey, bool>::empty(),
            r.contributions() == Map::<u64, BudgetContribution>::empty(),
            r.event_log() == Seq::<SharedBudgetEvent>::empty(),
    {
        SharedBudgetContract {
            admin: None,
            total_budgets_created: 0,
            total_contributions_processed: 0,
            budgets: Table::new(),
            members: Table::new(),
            contributions: Table::new(),
            events: Vec::new(),
        }
    }

    /// Sets the administrator and zeroes the running totals.  May be called
    /// once; the host aborts a second call before it reaches the contract.
    pub fn initialize(&mut self, admin: u64)
        requires
            old(self).wf(),
            old(self).admin() is None,
        ensures
            final(self).wf(),
            final(self).admin() == Some(admin),
            final(self).total_budgets_created() == 0,
            final(self).total_contributions_processed() == 0,
            final(self).budgets() == old(self).budgets(),
            final(self).members() == old(self).members(),
            final(self).contributions() == old(self).contributions(),
            final(self).event_log() == old(self).event_log(),
    {
        self.admin = Some(admin);
        self.total_budgets_created = 0;
        self.total_contributions_processed = 0;
    }

    /// Creates a new shared budget with the given members and spending
    /// rules, assigning the next budget id (counting from 1).  Rejected —
    /// changing nothing — when the member list or rule list is oversized or
    /// a rule carries an invalid percentage.
    pub fn create_budget(
        &mut self,
        creator: u64,
        budget_name: String,
        members: Vec<u64>,
        token: u64,
        spending_rules: Vec<BudgetSpendingRule>,
        now: u64,
    ) -> (r: Result<u64, SharedBudgetError>)
        requires
            old(self).wf(),
            old(self).total_budgets_created() < u64::MAX,
        ensures
            final(self).wf(),
            r is Err <==> (members@.len() > MAX_BUDGET_MEMBERS || spending_rules@.len()
                > MAX_SPENDING_RULES || !all_percentages_ok(spending_rules@)),
            r is Err ==> *final(self) == *old(self) && r->Err_0 == (if members@.len()
                > MAX_BUDGET_MEMBERS {
                SharedBudgetError::TooManyMembers
            } else if spending_rules@.len() > MAX_SPENDING_RULES {
                SharedBudgetError::TooManyRules
            } else {
                SharedBudgetError::InvalidPercentage
            }),
            r is Ok ==> ({
                let id = (old(self).total_budgets_created() + 1) as u64;
                &&& r->Ok_0 == id
                &&& final(self).total_budgets_created() == id
                &&& final(self).budgets() == old(self).budgets().insert(
                    id,
                    new_budget(id, budget_name, creator, token, members, spending_rules, now),
                )
                &&& final(self).members() == add_members(old(self).members(), id, members@)
                &&& final(self).contributions() == old(self).contributions()
                &&& final(self).admin() == old(self).admin()
                &&& final(self).total_contributions_processed() == old(
                    self,
                ).total_contributions_processed()
                &&& final(self).event_log().len() == old(self).event_log().len() + 1
                &&& final(self).event_log().drop_last() == old(self).event_log()
                &&& is_budget_created_event(
                    final(self).event_log().last(),
                    id,
                    creator,
                    members@,
                    token,
                )
            }),
    {
        if members.len() > MAX_BUDGET_MEMBERS as usize {
            return Err(SharedBudgetError::TooManyMembers);
        }
        if spending_rules.len() > MAX_SPENDING_RULES as usize {
            return Err(SharedBudgetError::TooManyRules);
        }
        let ghost pre = *old(self);
        let rule_count = spending_rules.len();
        let mut i: usize = 0;
        while i < rule_count
            invariant
                0 <= i <= rule_count,
                rule_count == spending_rules@.len(),
                *self == pre,
                pre == *old(self),
                pre.wf(),
                members@.len() <= MAX_BUDGET_MEMBERS,
                spending_rules@.len() <= MAX_SPENDING_RULES,
                forall|j: int|
                    0 <= j < i ==> (#[trigger] spending_rules@[j]).percentage_threshold <= 100,
            decreases rule_count - i,
        {
            if validate_percentage(spending_rules[i].percentage_threshold).is_err() {
                proof {
                    assert(!all_percentages_ok(spending_rules@)) by {
                        assert(spending_rules@[i as int].percentage_threshold > 100);
                    }
                }
                return Err(SharedBudgetError::InvalidPercentage);
            }
            i = i + 1;
        }
        proof {
            assert(all_percentages_ok(spending_rules@));
        }

        let budget_id = self.total_budgets_created + 1;
        let ghost members0 = self.members@;
        let member_count = members.len();
        let mut m: usize = 0;
        while m < member_count
            invariant
                0 <= m <= member_count,
                member_count == members@.len(),
                self.members.wf(),
                self.members@ == add_members(members0, budget_id, members@.take(m as int)),
                pre == *old(self),
                pre.wf(),
                members@.len() <= MAX_BUDGET_MEMBERS,
                spending_rules@.len() <= MAX_SPENDING_RULES,
                all_percentages_ok(spending_rules@),
                self.budgets == pre.budgets,
                self.contributions == pre.contributions,
                self.admin == pre.admin,
                self.total_budgets_created == pre.total_budgets_created,
                self.total_contributions_processed == pre.total_contributions_processed,
                self.events == pre.events,
                pre.wf(),
                budget_id == pre.total_budgets_created + 1,
            decreases member_count - m,
        {
            proof {
                lemma_add_members_take_step(members0, budget_id, members@, m as int);
            }
            self.members.set(PairKey { a: budget_id, b: members[m] }, true);
            m = m + 1;
        }
        proof {
            assert(members@.take(member_count as int) =~= members@);
        }

        let budget = Budget {
            id: budget_id,
            name: budget_name,
            creator,
            token,
            members,
            balance: 0,
            total_contributed: 0,
            spending_rules,
            is_active: true,
            created_at: now,
        };
        SharedBudgetEvents::budget_created(&mut self.events, budget_id, creator, &budget.members, token);
        self.budgets.set(budget_id, budget);
        self.total_budgets_created = budget_id;
        Ok(budget_id)
    }

    /// Records a contribution into the budget: both running totals rise by
    /// the amount and a contribution record is stored under the next
    /// contribution id.  The matching token transfer into the pool is the
    /// host's work.  Rejected — changing nothing — when the amount is not
    /// positive, the budget is unknown, or it is inactive.
    pub fn contribute_to_budget(
        &mut self,
        contributor: u64,
        budget_id: u64,
        amount: i128,
        now: u64,
    ) -> (r: Result<(), SharedBudgetError>)
        requires
            old(self).wf(),
            old(self).total_contributions_processed() < u64::MAX,
            amount > 0 && old(self).budgets().contains_key(budget_id) ==> old(
                self,
            ).budgets()[budget_id].balance + amount <= i128::MAX && old(
                self,
            ).budgets()[budget_id].total_contributed + amount <= i128::MAX,
        ensures
            final(self).wf(),
            amount <= 0 <==> r == Err::<(), SharedBudgetError>(SharedBudgetError::InvalidAmount),
            amount > 0 && !old(self).budgets().contains_key(budget_id) <==> r == Err::<
                (),
                SharedBudgetError,
            >(SharedBudgetError::BudgetNotFound),
            amount > 0 && old(self).budgets().contains_key(budget_id) && !old(
                self,
            ).budgets()[budget_id].is_active <==> r == Err::<(), SharedBudgetError>(
                SharedBudgetError::BudgetNotActive,
            ),
            r is Err ==> *final(self) == *old(self),
            r is Ok ==> ({
                let cid = (old(self).total_contributions_processed() + 1) as u64;
                &&& budgets_match_except(old(self).budgets(), final(self).budgets(), budget_id)
                &&& budget_after_contribution(
                    old(self).budgets()[budget_id],
                    final(self).budgets()[budget_id],
                    amount,
                )
                &&& final(self).contributions() == old(self).contributions().insert(
                    cid,
                    BudgetContribution { budget_id, contributor, amount, timestamp: now },
                )
                &&& final(self).total_contributions_processed() == cid
                &&& final(self).members() == old(self).members()
                &&& final(self).admin() == old(self).admin()
                &&& final(self).total_budgets_created() == old(self).total_budgets_created()
                &&& final(self).event_log() == old(self).event_log().push(
                    SharedBudgetEvent::ContributionAdded { budget_id, contributor, amount },
                )
            }),
    {
        if validate_amount(amount).is_err() {
            return Err(SharedBudgetError::InvalidAmount);
        }
        let mut budget = match self.budgets.get(budget_id) {
            Some(b) => b.clone(),
            None => {
                return Err(SharedBudgetError::BudgetNotFound);
            },
        };
        if !budget.is_active {
            return Err(SharedBudgetError::BudgetNotActive);
        }

        budget.balance = budget.balance + amount;
        budget.total_contributed = budget.total_contributed + amount;
        self.budgets.set(budget_id, budget);

        let contribution = BudgetContribution { budget_id, contributor, amount, timestamp: now };
        let contribution_id = self.total_contributions_processed + 1;
        self.contributions.set(contribution_id, contribution);
        self.total_contributions_processed = contribution_id;

        SharedBudgetEvents::contribution_added(&mut self.events, budget_id, contributor, amount);
        Ok(())
    }

    /// Spends from the budget on a member's behalf: the balance falls by the
    /// amount once every check passes, and the matching token transfer to
    /// the recipient is the host's work.  Rejected — changing nothing — when
    /// the amount is not positive, the budget is unknown or inactive, the
    /// spender is no member, the balance is short, or a spending rule
    /// forbids the spend.
    pub fn spend_from_budget(
        &mut self,
        spender: u64,
        budget_id: u64,
        recipient: u64,
        amount: i128,
    ) -> (r: Result<(), SharedBudgetError>)
        requires
            old(self).wf(),
        ensures
            final(self).wf(),
            amount <= 0 <==> r == Err::<(), SharedBudgetError>(SharedBudgetError::InvalidAmount),
            amount > 0 && !old(self).budgets().contains_key(budget_id) <==> r == Err::<
                (),
                SharedBudgetError,
            >(SharedBudgetError::BudgetNotFound),
            amount > 0 && old(self).budgets().contains_key(budget_id) && !old(
                self,
            ).budgets()[budget_id].is_active <==> r == Err::<(), SharedBudgetError>(
                SharedBudgetError::BudgetNotActive,
            ),
            r is Err ==> *final(self) == *old(self),
            amount > 0 && old(self).budgets().contains_key(budget_id) && old(
                self,
            ).budgets()[budget_id].is_active ==> ({
                let b = old(self).budgets()[budget_id];
                let member = old(self).members().contains_key(PairKey { a: budget_id, b: spender })
                    && old(self).members()[PairKey { a: budget_id, b: spender }];
                if !member {
                    r == Err::<(), SharedBudgetError>(SharedBudgetError::MemberNotFound)
                } else if b.balance < amount {
                    r == Err::<(), SharedBudgetError>(SharedBudgetError::InsufficientBalance)
                } else if rules_violation(b.spending_rules@, b.total_contributed, spender, amount) {
                    r == Err::<(), SharedBudgetError>(SharedBudgetError::Unauthorized)
                } else {
                    &&& r is Ok
                    &&& budgets_match_except(old(self).budgets(), final(self).budgets(), budget_id)
                    &&& budget_after_spend(b, final(self).budgets()[budget_id], amount)
                    &&& final(self).members() == old(self).members()
                    &&& final(self).contributions() == old(self).contributions()
                    &&& final(self).admin() == old(self).admin()
                    &&& final(self).total_budgets_created() == old(self).total_budgets_created()
                    &&& final(self).total_contributions_processed() == old(
                        self,
                    ).total_contributions_processed()
                    &&& final(self).event_log() == old(self).event_log().push(
                        SharedBudgetEvent::ExpenseIncurred { budget_id, spender, recipient, amount },
                    )
                }
            }),
    {
        if validate_amount(amount).is_err() {
            return Err(SharedBudgetError::InvalidAmount);
        }
        let mut budget = match self.budgets.get(budget_id) {
            Some(b) => b.clone(),
            None => {
                return Err(SharedBudgetError::BudgetNotFound);
            },
        };
        if !budget.is_active {
            return Err(SharedBudgetError::BudgetNotActive);
        }
        let is_member = match self.members.get(PairKey { a: budget_id, b: spender }) {
            Some(flag) => *flag,
            None => false,
        };
        if !is_member {
            return Err(SharedBudgetError::MemberNotFound);
        }
        if budget.balance < amount {
            return Err(SharedBudgetError::InsufficientBalance);
        }
        if !spending_rules_allow(&budget, spender, amount) {
            return Err(SharedBudgetError::Unauthorized);
        }

        budget.balance = budget.balance - amount;
        self.budgets.set(budget_id, budget);
        SharedBudgetEvents::expense_incurred(&mut self.events, budget_id, spender, recipient, amount);
        Ok(())
    }

    /// Adds a member to an existing budget.  Only the budget's creator or
    /// the administrator may; a known member is rejected, as is a full
    /// budget.  A rejected call changes nothing.
    pub fn add_member_to_budget(&mut self, caller: u64, budget_id: u64, new_member: u64) -> (r:
        Result<(), SharedBudgetError>)
        requires
            old(self).wf(),
        ensures
            final(self).wf(),
            r is Err ==> *final(self) == *old(self),
            !old(self).budgets().contains_key(budget_id) <==> r == Err::<(), SharedBudgetError>(
                SharedBudgetError::BudgetNotFound,
            ),
            old(self).budgets().contains_key(budget_id) ==> ({
                let b = old(self).budgets()[budget_id];
                let authorized = caller == b.creator || old(self).admin() == Some(caller);
                let known = old(self).members().contains_key(
                    PairKey { a: budget_id, b: new_member },
                ) && old(self).members()[PairKey { a: budget_id, b: new_member }];
                if caller != b.creator && old(self).admin() is None {
                    r == Err::<(), SharedBudgetError>(SharedBudgetError::NotInitialized)
                } else if !authorized {
                    r == Err::<(), SharedBudgetError>(SharedBudgetError::Unauthorized)
                } else if known {
                    r == Err::<(), SharedBudgetError>(SharedBudgetError::MemberAlreadyExists)
                } else if b.members@.len() >= MAX_BUDGET_MEMBERS {
                    r == Err::<(), SharedBudgetError>(SharedBudgetError::TooManyMembers)
                } else {
                    &&& r is Ok
                    &&& budgets_match_except(old(self).budgets(), final(self).budgets(), budget_id)
                    &&& budget_after_new_member(b, final(self).budgets()[budget_id], new_member)
                    &&& final(self).members() == old(self).members().insert(
                        PairKey { a: budget_id, b: new_member },
                        true,
                    )
                    &&& final(self).contributions() == old(self).contributions()
                    &&& final(self).admin() == old(self).admin()
                    &&& final(self).total_budgets_created() == old(self).total_budgets_created()
                    &&& final(self).total_contributions_processed() == old(
                        self,
                    ).total_contributions_processed()
                    &&& final(self).event_log() == old(self).event_log()
                }
            }),
    {
        let mut budget = match self.budgets.get(budget_id) {
            Some(b) => b.clone(),
            None => {
                return Err(SharedBudgetError::BudgetNotFound);
            },
        };
        if caller != budget.creator {
            match self.admin {
                None => {
                    return Err(SharedBudgetError::NotInitialized);
                },
                Some(a) => {
                    if a != caller {
                        return Err(SharedBudgetError::Unauthorized);
                    }
                },
            }
        }
        let member_exists = match self.members.get(PairKey { a: budget_id, b: new_member }) {
            Some(flag) => *flag,
            None => false,
        };
        if member_exists {
            return Err(SharedBudgetError::MemberAlreadyExists);
        }
        if budget.members.len() >= MAX_BUDGET_MEMBERS as usize {
            return Err(SharedBudgetError::TooManyMembers);
        }

        budget.members.push(new_member);
        self.members.set(PairKey { a: budget_id, b: new_member }, true);
        self.budgets.set(budget_id, budget);
        Ok(())
    }

    /// Adds a spending rule to an existing budget, notifying the event log.
    /// Only the budget's creator or the administrator may; the rule's
    /// percentage must be valid and the rule list not yet full.  A rejected
    /// call changes nothing.
    pub fn add_spending_rule(&mut self, caller: u64, budget_id: u64, rule: BudgetSpendingRule) -> (r:
        Result<(), SharedBudgetError>)
        requires
            old(self).wf(),
        ensures
            final(self).wf(),
            r is Err ==> *final(self) == *old(self),
            !old(self).budgets().contains_key(budget_id) <==> r == Err::<(), SharedBudgetError>(
                SharedBudgetError::BudgetNotFound,
            ),
            old(self).budgets().contains_key(budget_id) ==> ({
                let b = old(self).budgets()[budget_id];
                let authorized = caller == b.creator || old(self).admin() == Some(caller);
                if caller != b.creator && old(self).admin() is None {
                    r == Err::<(), SharedBudgetError>(SharedBudgetError::NotInitialized)
                } else if !authorized {
                    r == Err::<(), SharedBudgetError>(SharedBudgetError::Unauthorized)
                } else if rule.percentage_threshold > 100 {
                    r == Err::<(), SharedBudgetError>(SharedBudgetError::InvalidPercentage)
                } else if b.spending_rules@.len() >= MAX_SPENDING_RULES {
                    r == Err::<(), SharedBudgetError>(SharedBudgetError::TooManyRules)
                } else {
                    &&& r is Ok
                    &&& budgets_match_except(old(self).budgets(), final(self).budgets(), budget_id)
                    &&& budget_after_new_rule(b, final(self).budgets()[budget_id], rule)
                    &&& final(self).members() == old(self).members()
                    &&& final(self).contributions() == old(self).contributions()
                    &&& final(self).admin() == old(self).admin()
                    &&& final(self).total_budgets_created() == old(self).total_budgets_created()
                    &&& final(self).total_contributions_processed() == old(
                        self,
                    ).total_contributions_processed()
                    &&& final(self).event_log() == old(self).event_log().push(
                        SharedBudgetEvent::SpendingRuleAdded {
                            budget_id,
                            applicable_to: rule.applicable_to,
                            percentage_threshold: rule.percentage_threshold,
                            requires_approval: rule.requires_approval,
                        },
                    )
                }
            }),
    {
        let mut budget = match self.budgets.get(budget_id) {
            Some(b) => b.clone(),
            None => {
                return Err(SharedBudgetError::BudgetNotFound);
            },
        };
        if caller != budget.creator {
            match self.admin {
                None => {
                    return Err(SharedBudgetError::NotInitialized);
                },
                Some(a) => {
                    if a != caller {
                        return Err(SharedBudgetError::Unauthorized);
                    }
                },
            }
        }
        if validate_percentage(rule.percentage_threshold).is_err() {
            return Err(SharedBudgetError::InvalidPercentage);
        }
        if budget.spending_rules.len() >= MAX_SPENDING_RULES as usize {
            return Err(SharedBudgetError::TooManyRules);
        }

        SharedBudgetEvents::spending_rule_added(&mut self.events, budget_id, &rule);
        budget.spending_rules.push(rule);
        self.budgets.set(budget_id, budget);
        Ok(())
    }

    /// The budget stored under the id, if any; the returned record carries
    /// the stored data.
    pub fn get_budget(&self, budget_id: u64) -> (r: Option<Budget>)
        requires
            self.wf(),
        ensures
            r is Some <==> self.budgets().contains_key(budget_id),
            r is Some ==> budget_like(self.budgets()[budget_id], r->0),
    {
        match self.budgets.get(budget_id) {
            Some(b) => Some(b.clone()),
            None => None,
        }
    }

    /// Whether the principal is a member of the budget.
    pub fn is_budget_member(&self, budget_id: u64, member: u64) -> (r: bool)
        requires
            self.wf(),
        ensures
            r == (self.members().contains_key(PairKey { a: budget_id, b: member })
                && self.members()[PairKey { a: budget_id, b: member }]),
    {
        match self.members.get(PairKey { a: budget_id, b: member }) {
            Some(flag) => *flag,
            None => false,
        }
    }

    /// The contribution record stored under the id, if any.
    pub fn get_contribution(&self, contribution_id: u64) -> (r: Option<BudgetContribution>)
        requires
            self.wf(),
        ensures
            r == (if self.contributions().contains_key(contribution_id) {
                Some(self.contributions()[contribution_id])
            } else {
                None::<BudgetContribution>
            }),
    {
        match self.contributions.get(contribution_id) {
            Some(c) => Some(*c),
            None => None,
        }
    }

    /// Whether an administrator has been set.
    pub fn is_initialized(&self) -> (r: bool)
        ensures
            r == (self.admin() is Some),
    {
        self.admin.is_some()
    }

    /// The administrator principal; the host aborts a call on an
    /// uninitialized contract before it reaches this.
    pub fn get_admin(&self) -> (r: u64)
        requires
            self.admin() is Some,
        ensures
            Some(r) == self.admin(),
    {
        match self.admin {
            Some(a) => a,
            None => {
                assert(false);
                0
            },
        }
    }

    /// Hands the administrator role over; only the current administrator
    /// may do so, and only once one is set.
    pub fn set_admin(&mut self, current_admin: u64, new_admin: u64) -> (r: Result<
        (),
        SharedBudgetError,
    >)
        requires
            old(self).wf(),
        ensures
            final(self).wf(),
            r is Ok <==> old(self).admin() == Some(current_admin),
            r is Ok ==> final(self).admin() == Some(new_admin),
            r is Err ==> *final(self) == *old(self),
            old(self).admin() is None ==> r == Err::<(), SharedBudgetError>(
                SharedBudgetError::NotInitialized,
            ),
            old(self).admin() is Some && old(self).admin() != Some(current_admin) ==> r == Err::<
                (),
                SharedBudgetError,
            >(SharedBudgetError::Unauthorized),
            final(self).total_budgets_created() == old(self).total_budgets_created(),
            final(self).total_contributions_processed() == old(
                self,
            ).total_contributions_processed(),
            final(self).budgets() == old(self).budgets(),
            final(self).members() == old(self).members(),
            final(self).contributions() == old(self).contributions(),
            final(self).event_log() == old(self).event_log(),
    {
        match self.admin {
            None => Err(SharedBudgetError::NotInitialized),
            Some(a) => {
                if a != current_admin {
                    Err(SharedBudgetError::Unauthorized)
                } else {
                    self.admin = Some(new_admin);
                    Ok(())
                }
            },
        }
    }

    /// Total number of budgets created.
    pub fn get_total_budgets_created(&self) -> (r: u64)
        ensures
            r == self.total_budgets_created(),
    {
        self.total_budgets_created
    }

    /// Total number of contributions processed.
    pub fn get_total_contribs_processed(&self) -> (r: u64)
        ensures
            r == self.total_contributions_processed(),
    {
        self.total_contributions_processed
    }

    /// The notifications emitted so far, oldest first.
    pub fn events(&self) -> (r: &Vec<SharedBudgetEvent>)
        ensures
            r@ == self.event_log(),
    {
        &self.events
    }
}

} // verus!
