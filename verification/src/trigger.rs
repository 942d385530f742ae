//! The threshold trigger: a one-shot check-and-reset of the accumulator.
//! Once the accumulated reserve shares meet the configured threshold the
//! trigger fires and the accumulator returns to zero.  The trigger only
//! resets: invoking an external liquidity-provisioning step on a firing
//! is deliberately left to the host and is not performed here.

use vstd::prelude::*;

use crate::state::GlobalState;

verus! {

/// What one trigger inspection concluded.
#[derive(Clone, Copy, Debug, PartialEq, Eq, Structural)]
pub enum TriggerOutcome {
    /// The accumulator met the threshold and was reset to zero.
    Fired,
    /// The accumulator is below the threshold; nothing changed.
    NotMet,
}

/// The trigger fires exactly when the accumulator meets or exceeds the
/// configured threshold.
pub open spec fn trigger_fires(s: GlobalState) -> bool {
    s.accumulated_yot >= s.liquidity_threshold
}

/// The store after a firing: the accumulator is exactly zero and every
/// other field is untouched.
pub open spec fn after_trigger(s: GlobalState) -> GlobalState {
    GlobalState { accumulated_yot: 0, ..s }
}

/// Inspects the accumulator and resets it to zero when it meets the
/// threshold.  Below the threshold nothing is mutated.  The operation
/// always succeeds and is safe to call repeatedly: a reset is never
/// worth more than once per accumulation.
pub fn maybe_trigger(store: &mut GlobalState) -> (r: TriggerOutcome)
    ensures
        r == TriggerOutcome::Fired <==> trigger_fires(*old(store)),
        r == TriggerOutcome::NotMet <==> !trigger_fires(*old(store)),
        trigger_fires(*old(store)) ==> *final(store) == after_trigger(*old(store)),
        !trigger_fires(*old(store)) ==> *final(store) == *old(store),
{
    if store.accumulated_yot >= store.liquidity_threshold {
        store.accumulated_yot = 0;
        TriggerOutcome::Fired
    } else {
        TriggerOutcome::NotMet
    }
}

/// Once fired, the trigger cannot fire again until the accumulator
/// grows: of two immediately successive inspections with a positive
/// threshold, at most the first fires, and the second concludes that the
/// threshold is not met.  (With a threshold of zero every inspection
/// fires; such a configuration is excluded here.)
pub proof fn lemma_trigger_idempotent(s: GlobalState)
    requires
        s.liquidity_threshold >= 1,
    ensures
        trigger_fires(s) ==> !trigger_fires(after_trigger(s)),
        !trigger_fires(if trigger_fires(s) { after_trigger(s) } else { s }),
{
}

/// The threshold boundary is inclusive: an accumulator exactly at the
/// threshold fires, and one unit below it does not.
pub proof fn lemma_threshold_boundary(s: GlobalState)
    ensures
        s.accumulated_yot == s.liquidity_threshold ==> trigger_fires(s),
        s.liquidity_threshold >= 1 && s.accumulated_yot == s.liquidity_threshold - 1
            ==> !trigger_fires(s),
{
}

} // verus!
