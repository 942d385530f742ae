//! The parameter store: one long-lived record per deployment holding the
//! configured split ratios, the trigger threshold, and the running
//! accumulator of reserve shares.

use vstd::prelude::*;

verus! {

/// Default reward rate in basis points (5%).
pub const DEFAULT_CASHBACK_BPS: u64 = 500;

/// Default accumulator threshold for the liquidity trigger.
pub const DEFAULT_LIQUIDITY_THRESHOLD: u64 = 100_000_000;

/// Default advisory weekly yield rate in basis points; stored for a
/// downstream consumer, never read by this core.
pub const DEFAULT_WEEKLY_APR_BPS: u64 = 7000;

/// Errors surfaced by the distribution core.  Every failure aborts the
/// whole operation: no partial state is ever left behind.
#[derive(Clone, Copy, Debug, PartialEq, Eq, Structural)]
pub enum DistributionError {
    /// A multiplication overflowed, a balance update would not fit in a
    /// `u64`, or the configured rates would drive the principal negative.
    ArithmeticOverflow,
    /// The source balance cannot cover the principal and reserve shares.
    InsufficientBalance,
    /// Bootstrap was asked to create a store where one already exists.
    AlreadyInitialized,
}

/// The singleton parameter store of one deployment.
#[derive(Clone, Copy, Debug)]
pub struct GlobalState {
    /// Identifier of the pooled-reserve owner, the credential under which
    /// reward issuance is authorized.  Set once at creation.
    pub pool_authority: [u8; 32],
    /// Running total of reserve shares since the last trigger firing.
    pub accumulated_yot: u64,
    /// Reward rate in basis points; not range-checked against 10,000.
    pub cashback_bps: u64,
    /// Accumulator level at which the trigger fires.
    pub liquidity_threshold: u64,
    /// Advisory yield rate, stored but not consumed by this core.
    pub weekly_apr_bps: u64,
}

/// The store a fresh deployment starts from: empty accumulator and the
/// default rates, owned by the given authority.
pub open spec fn default_state(pool_authority: [u8; 32]) -> GlobalState {
    GlobalState {
        pool_authority: pool_authority,
        accumulated_yot: 0,
        cashback_bps: DEFAULT_CASHBACK_BPS,
        liquidity_threshold: DEFAULT_LIQUIDITY_THRESHOLD,
        weekly_apr_bps: DEFAULT_WEEKLY_APR_BPS,
    }
}

/// Creates the parameter store with its default configuration.  A store
/// is a singleton per deployment: when one already exists, bootstrap
/// fails and nothing is created.
pub fn initialize(
    existing: Option<&GlobalState>,
    pool_authority: [u8; 32],
) -> (r: Result<GlobalState, DistributionError>)
    ensures
        r is Ok <==> existing is None,
        r is Err <==> existing is Some,
        r matches Ok(s) ==> s == default_state(pool_authority),
        r matches Err(e) ==> e == DistributionError::AlreadyInitialized,
{
    match existing {
        Some(_) => Err(DistributionError::AlreadyInitialized),
        None => Ok(GlobalState {
            pool_authority: pool_authority,
            accumulated_yot: 0,
            cashback_bps: DEFAULT_CASHBACK_BPS,
            liquidity_threshold: DEFAULT_LIQUIDITY_THRESHOLD,
            weekly_apr_bps: DEFAULT_WEEKLY_APR_BPS,
        }),
    }
}

/// Overwrites the three configuration values unconditionally.  No bounds
/// are validated: in particular `cashback_bps` is not clamped to 10,000,
/// and callers must not rely on auto-clamping.  Authorization of the
/// caller is the host's concern.  The authority and the accumulator are
/// untouched.
pub fn set_params(
    store: &mut GlobalState,
    cashback_bps: u64,
    liquidity_threshold: u64,
    weekly_apr_bps: u64,
)
    ensures
        final(store).cashback_bps == cashback_bps,
        final(store).liquidity_threshold == liquidity_threshold,
        final(store).weekly_apr_bps == weekly_apr_bps,
        final(store).pool_authority == old(store).pool_authority,
        final(store).accumulated_yot == old(store).accumulated_yot,
{
    store.cashback_bps = cashback_bps;
    store.liquidity_threshold = liquidity_threshold;
    store.weekly_apr_bps = weekly_apr_bps;
}

} // verus!
