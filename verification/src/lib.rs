//! Atomic value-distribution core with a threshold-triggered accumulator.
//!
//! Given an incoming amount, the library partitions it into a principal
//! share for the requesting actor, a fixed reserve share for a pooled
//! vault, and a newly issued reward share, with an exact conservation
//! guarantee.  A running accumulator collects the reserve shares and is
//! reset by a one-shot trigger once it reaches a configured threshold.
//!
//! The library decides how much value moves where; durably recording the
//! transfers against a ledger is the host's concern and stays outside.

pub mod distribute;
pub mod split;
pub mod state;
pub mod trigger;
