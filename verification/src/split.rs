//! The split calculator: partitions an incoming amount into a reward
//! share, a fixed 20% reserve share, and the remaining principal, with an
//! exact conservation guarantee.

use vstd::prelude::*;

use crate::state::DistributionError;

verus! {

/// Denominator of a basis-point rate: 10,000 bps make 100%.
pub const BPS_DENOMINATOR: u64 = 10_000;

/// The reward share: `floor(amount * cashback_bps / 10_000)`.
pub open spec fn reward_amount(amount: nat, cashback_bps: nat) -> nat {
    (amount * cashback_bps) / (BPS_DENOMINATOR as nat)
}

/// The reserve share: a fixed 20% of the amount, `floor(amount * 20 / 100)`,
/// independent of any configured rate.
pub open spec fn reserve_amount(amount: nat) -> nat {
    (amount * 20) / 100
}

/// Both working products of the split fit in the `u64` width.
pub open spec fn products_fit(amount: nat, cashback_bps: nat) -> bool {
    &&& amount * cashback_bps <= u64::MAX
    &&& amount * 20 <= u64::MAX
}

/// The two computed shares leave a non-negative principal.  This can only
/// fail when `cashback_bps` is misconfigured above 10,000 less the fixed
/// reserve fraction.
pub open spec fn split_conserves(amount: nat, cashback_bps: nat) -> bool {
    reward_amount(amount, cashback_bps) + reserve_amount(amount) <= amount
}

/// Exactly when the split succeeds: no intermediate product overflows and
/// the principal stays non-negative.
pub open spec fn split_succeeds(amount: nat, cashback_bps: nat) -> bool {
    &&& products_fit(amount, cashback_bps)
    &&& split_conserves(amount, cashback_bps)
}

/// The principal share: what is left of the amount once the reward and
/// reserve shares are taken out.  Meaningful when the split conserves.
pub open spec fn principal_amount(amount: nat, cashback_bps: nat) -> nat {
    (amount - reward_amount(amount, cashback_bps) - reserve_amount(amount)) as nat
}

/// The three-way partition of one incoming amount.
#[derive(Clone, Copy, Debug, PartialEq, Eq, Structural)]
pub struct Split {
    /// Newly issued units owed to the requesting actor.
    pub reward: u64,
    /// Share moved into the pooled reserve vault.
    pub reserve: u64,
    /// Share passed through to the requesting actor.
    pub principal: u64,
}

/// Computes the three-way split of `amount` under the configured reward
/// rate.  The partition conserves value exactly: the three shares sum
/// back to the amount.  Overflow of a working product and a negative
/// principal are detected and surfaced as a fatal error, never wrapped.
pub fn split(amount: u64, cashback_bps: u64) -> (r: Result<Split, DistributionError>)
    ensures
        r is Ok <==> split_succeeds(amount as nat, cashback_bps as nat),
        r matches Ok(s) ==> {
            &&& s.reward == reward_amount(amount as nat, cashback_bps as nat)
            &&& s.reserve == reserve_amount(amount as nat)
            &&& s.principal == principal_amount(amount as nat, cashback_bps as nat)
            &&& s.reward + s.reserve + s.principal == amount
        },
        r matches Err(e) ==> e == DistributionError::ArithmeticOverflow,
{
    let reward_product = match amount.checked_mul(cashback_bps) {
        Some(p) => p,
        None => {
            return Err(DistributionError::ArithmeticOverflow);
        },
    };
    let reserve_product = match amount.checked_mul(20) {
        Some(p) => p,
        None => {
            return Err(DistributionError::ArithmeticOverflow);
        },
    };
    let reward: u64 = reward_product / BPS_DENOMINATOR;
    let reserve: u64 = reserve_product / 100;
    let taken = match reward.checked_add(reserve) {
        Some(t) => t,
        None => {
            // The two shares already exceed the u64 width, so they
            // certainly exceed the amount: the principal would go
            // negative.
            return Err(DistributionError::ArithmeticOverflow);
        },
    };
    if taken > amount {
        return Err(DistributionError::ArithmeticOverflow);
    }
    Ok(Split { reward, reserve, principal: amount - taken })
}

} // verus!
