//! An escrow ledger for conditional pledges toward a funding goal.
//!
//! Pledges accumulate in a deposit ledger until a deadline; afterwards the
//! pooled balance is released to exactly one of two outcomes: a payout to an
//! administrator once the target is met, or per-depositor refunds when it is
//! not (or when the campaign was terminated early). Every operation is
//! verified to preserve conservation of funds: the pooled balance always
//! equals the sum of the outstanding per-depositor claims.

pub mod ledger;
pub mod escrow;
