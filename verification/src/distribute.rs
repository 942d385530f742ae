//! The distribution executor: one request moves the principal to the
//! requesting actor, the reserve share into the pooled vault, issues the
//! reward, and grows the accumulator — all as one indivisible unit of
//! work, or not at all.

use vstd::prelude::*;

use crate::split::{
    principal_amount, reserve_amount, reward_amount, split, split_succeeds, Split,
};
use crate::state::{DistributionError, GlobalState};

verus! {

/// The four value-bearing balances one distribution request touches.
/// The host hands their current levels in and applies the updated levels
/// back to its ledger; the request exists only for the duration of one
/// `distribute` call.
#[derive(Clone, Copy, Debug, PartialEq, Eq, Structural)]
pub struct AccountBalances {
    /// Balance the amount is drawn from.
    pub source: u64,
    /// The requesting actor's destination for the principal share.
    pub user_destination: u64,
    /// The pooled reserve vault.
    pub reserve_vault: u64,
    /// The requesting actor's destination for newly issued reward units.
    pub reward_destination: u64,
}

/// The source balance covers what leaves it: the principal and the
/// reserve share.  The reward is newly issued, not drawn from the source.
pub open spec fn source_covers(b: AccountBalances, amount: nat, cashback_bps: nat) -> bool {
    b.source >= principal_amount(amount, cashback_bps) + reserve_amount(amount)
}

/// Every balance update of the distribution fits in the `u64` width:
/// the three credited destinations and the accumulator.
pub open spec fn updates_fit(
    s: GlobalState,
    b: AccountBalances,
    amount: nat,
    cashback_bps: nat,
) -> bool {
    &&& b.user_destination + principal_amount(amount, cashback_bps) <= u64::MAX
    &&& b.reserve_vault + reserve_amount(amount) <= u64::MAX
    &&& b.reward_destination + reward_amount(amount, cashback_bps) <= u64::MAX
    &&& s.accumulated_yot + reserve_amount(amount) <= u64::MAX
}

/// Exactly when a distribution commits: the split succeeds under the
/// store's configured rate, the source balance covers it, and every
/// update fits.
pub open spec fn distribute_succeeds(s: GlobalState, b: AccountBalances, amount: nat) -> bool {
    &&& split_succeeds(amount, s.cashback_bps as nat)
    &&& source_covers(b, amount, s.cashback_bps as nat)
    &&& updates_fit(s, b, amount, s.cashback_bps as nat)
}

/// Executes one distribution request against the store's configuration.
///
/// On success the principal moves from the source to the actor's
/// destination, the reserve share moves from the source into the vault,
/// the reward is issued into the reward destination, and the accumulator
/// grows by exactly the reserve share.  On any failure neither the
/// balances nor the store change: no partial state is ever observable.
/// The configuration fields are never touched.
pub fn distribute(
    store: &mut GlobalState,
    accounts: &mut AccountBalances,
    amount: u64,
) -> (r: Result<(), DistributionError>)
    ensures
        r is Ok <==> distribute_succeeds(*old(store), *old(accounts), amount as nat),
        r == Err::<(), DistributionError>(DistributionError::InsufficientBalance) <==> {
            &&& split_succeeds(amount as nat, old(store).cashback_bps as nat)
            &&& !source_covers(*old(accounts), amount as nat, old(store).cashback_bps as nat)
        },
        r == Err::<(), DistributionError>(DistributionError::ArithmeticOverflow) <==> {
            ||| !split_succeeds(amount as nat, old(store).cashback_bps as nat)
            ||| {
                &&& split_succeeds(amount as nat, old(store).cashback_bps as nat)
                &&& source_covers(*old(accounts), amount as nat, old(store).cashback_bps as nat)
                &&& !updates_fit(*old(store), *old(accounts), amount as nat,
                    old(store).cashback_bps as nat)
            }
        },
        r is Err ==> *final(store) == *old(store) && *final(accounts) == *old(accounts),
        r is Ok ==> {
            let bps = old(store).cashback_bps as nat;
            &&& final(accounts).source == old(accounts).source
                - principal_amount(amount as nat, bps) - reserve_amount(amount as nat)
            &&& final(accounts).user_destination == old(accounts).user_destination
                + principal_amount(amount as nat, bps)
            &&& final(accounts).reserve_vault == old(accounts).reserve_vault
                + reserve_amount(amount as nat)
            &&& final(accounts).reward_destination == old(accounts).reward_destination
                + reward_amount(amount as nat, bps)
            &&& final(store).accumulated_yot == old(store).accumulated_yot
                + reserve_amount(amount as nat)
        },
        final(store).accumulated_yot >= old(store).accumulated_yot,
        final(store).pool_authority == old(store).pool_authority,
        final(store).cashback_bps == old(store).cashback_bps,
        final(store).liquidity_threshold == old(store).liquidity_threshold,
        final(store).weekly_apr_bps == old(store).weekly_apr_bps,
{
    let parts: Split = match split(amount, store.cashback_bps) {
        Ok(p) => p,
        Err(e) => {
            return Err(e);
        },
    };
    // Conservation bounds the outgoing total by the amount itself.
    let needed: u64 = parts.principal + parts.reserve;
    if accounts.source < needed {
        return Err(DistributionError::InsufficientBalance);
    }
    let new_user_destination = match accounts.user_destination.checked_add(parts.principal) {
        Some(v) => v,
        None => {
            return Err(DistributionError::ArithmeticOverflow);
        },
    };
    let new_reserve_vault = match accounts.reserve_vault.checked_add(parts.reserve) {
        Some(v) => v,
        None => {
            return Err(DistributionError::ArithmeticOverflow);
        },
    };
    let new_reward_destination = match accounts.reward_destination.checked_add(parts.reward) {
        Some(v) => v,
        None => {
            return Err(DistributionError::ArithmeticOverflow);
        },
    };
    let new_accumulated = match store.accumulated_yot.checked_add(parts.reserve) {
        Some(v) => v,
        None => {
            return Err(DistributionError::ArithmeticOverflow);
        },
    };
    accounts.source = accounts.source - needed;
    accounts.user_destination = new_user_destination;
    accounts.reserve_vault = new_reserve_vault;
    accounts.reward_destination = new_reward_destination;
    store.accumulated_yot = new_accumulated;
    Ok(())
}

/// The sum of a sequence of reserve shares.
pub open spec fn sum_of_reserves(reserves: Seq<nat>) -> nat
    decreases reserves.len(),
{
    if reserves.len() == 0 {
        0
    } else {
        reserves[0] + sum_of_reserves(reserves.drop_first())
    }
}

/// The accumulator after folding a sequence of reserve shares into it,
/// one successful distribution at a time: each step grows it by exactly
/// that distribution's reserve share, as `distribute` ensures.
pub open spec fn accumulated_after(start: nat, reserves: Seq<nat>) -> nat
    decreases reserves.len(),
{
    if reserves.len() == 0 {
        start
    } else {
        accumulated_after(start + reserves[0], reserves.drop_first())
    }
}

/// Accumulator monotonicity: after any number of successful
/// distributions with reserve shares `reserves` and no trigger firing in
/// between, the accumulator holds its starting value plus the sum of the
/// shares — in particular it never shrank.
pub proof fn lemma_accumulator_sums(start: nat, reserves: Seq<nat>)
    ensures
        accumulated_after(start, reserves) == start + sum_of_reserves(reserves),
        accumulated_after(start, reserves) >= start,
    decreases reserves.len(),
{
    if reserves.len() > 0 {
        lemma_accumulator_sums(start + reserves[0], reserves.drop_first());
    }
}

} // verus!
