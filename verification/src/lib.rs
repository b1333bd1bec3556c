//! Ledger-state contracts for per-principal spending control.
//!
//! The heart of the crate is the spending-limit engine: a batch processor
//! that reconfigures per-principal monthly limits with per-item
//! partial-failure semantics, and an enforcement engine that tracks spending
//! against a daily cap derived from the monthly cap over rolling windows.
//! Around it stand the simpler ledger contracts of the same shape:
//! delegation allowances, shared budgets, recurring payments, timelocked
//! transfers, fraud flags and transaction metadata.
//!
//! The host that serializes calls, proves authorization, and persists state
//! between invocations is an external collaborator.  Each contract here is an
//! explicit state object: the persistent store, the event log and the ledger
//! clock are injected (fields of the state, or plain parameters), so every
//! rule is an ordinary function from state and input to state and output,
//! with its behaviour stated in `ensures` clauses.

pub mod budget_types;
pub mod delegation;
pub mod fraud;
pub mod limit_store;
pub mod limit_types;
pub mod limit_validation;
pub mod metadata;
pub mod recurring;
pub mod shared_budgets;
pub mod spending_limits;
pub mod table;
pub mod timelock;
pub mod validation;
