//! Premium pricing and policy lifecycle rules of a parametric insurance
//! contract on Soroban, with their contracts proved by Verus.
//!
//! - [`premium_pure`]: checked arithmetic, ratio scaling with explicit
//!   rounding, and the five-stage premium computation.
//! - [`types`]: risk inputs and the multiplier table, whose maps are
//!   `soroban_sdk::Map`s.
//! - [`policy_lifecycle`]: the decisions of binding, terminating and lapsing
//!   a policy.
//! - [`error`]: the errors of the pricing rules.

pub mod error;
pub mod premium_pure;
pub mod types;
pub mod policy_lifecycle;
