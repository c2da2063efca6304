//! Precondition validation for a multi-account staking/pool protocol.
//!
//! Before any privileged operation (creating a pool, staking, withdrawing
//! tokens, claiming rewards) is allowed to mutate ledger state, a validator
//! inspects a read-only snapshot of every account the operation references
//! and confirms that their cross-references, ownership chains, and numeric
//! invariants are consistent.  The first violated check aborts validation
//! with a structured failure; on success the caller may proceed to the
//! mutation logic, which is outside this crate.
//!
//! - [`model`] holds the snapshot records (pools, mints, token accounts, ...).
//! - [`failure`] holds the closed failure taxonomy.
//! - [`checks`] holds the primitive relation and invariant checks, and the
//!   `first_failure` theory used to state the short-circuit law.
//! - [`validators`] holds one typed context per operation, each with its
//!   `validate` method, and the uniform entry point.
//! - [`laws`] proves the crate-level laws: determinism of validation and the
//!   short-circuit property of the check sequences.

pub mod checks;
pub mod failure;
pub mod laws;
pub mod model;
pub mod validators;
