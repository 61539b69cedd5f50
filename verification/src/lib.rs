//! Verified core of a pooled student-finance platform: purpose-scoped
//! treasuries with ratio-bounded allocation, a loan lifecycle state machine
//! driven by time, amortized payment math over the integers, and the
//! recurring maintenance sweep that ties them together. Every executable
//! function carries a contract; the laws the platform rests on (conservation
//! of funds, ratio invariants, idempotent late fees, forward-only status
//! under time, and zero-rate payoff) are stated and proved alongside the
//! code.

use vstd::prelude::*;

pub mod amortization;
pub mod auth;
pub mod automation;
pub mod common;
pub mod credit;
pub mod constants;
pub mod errors;
pub mod governance;
pub mod health;
pub mod identity;
pub mod issuer;
pub mod loans;
pub mod service;
pub mod storage;
pub mod text;
pub mod treasury;
pub mod utils;

verus! {

/// Minor-currency amount in cents.
pub type Amount = u64;

/// Nanoseconds since the Unix epoch.
pub type Timestamp = u64;

/// A ratio or rate expressed in basis points: 10_000 stands for 1.0 (100%).
pub type RateBps = u64;

/// Textual identifier of an entity (loan, payment, treasury).
pub type EntityId = String;

} // verus!
