use yot_yos_dapp::distribute::{distribute, AccountBalances};
use yot_yos_dapp::split::{split, Split};
use yot_yos_dapp::state::{initialize, set_params, DistributionError, GlobalState};
use yot_yos_dapp::trigger::{maybe_trigger, TriggerOutcome};

fn fresh_store() -> GlobalState {
    initialize(None, [7u8; 32]).expect("fresh deployment")
}

#[test]
fn split_example_values() {
    let s = split(1000, 500).expect("split succeeds");
    assert_eq!(
        s,
        Split {
            reward: 50,
            reserve: 200,
            principal: 750,
        }
    );
}

#[test]
fn split_conserves_value() {
    for amount in [0u64, 1, 99, 100, 1000, 12_345, 1_000_000_007] {
        for bps in [0u64, 1, 500, 2500, 7999, 8000] {
            let s = split(amount, bps).expect("within conserving range");
            assert_eq!(s.reward as u128 + s.reserve as u128 + s.principal as u128, amount as u128);
        }
    }
}

#[test]
fn split_rejects_negative_principal() {
    // 90% reward plus the fixed 20% reserve exceeds the amount.
    assert_eq!(split(100, 9000), Err(DistributionError::ArithmeticOverflow));
}

#[test]
fn split_rejects_product_overflow() {
    assert_eq!(split(u64::MAX, 2), Err(DistributionError::ArithmeticOverflow));
    // The reserve product amount * 20 overflows even at 0 bps.
    assert_eq!(split(u64::MAX / 2, 0), Err(DistributionError::ArithmeticOverflow));
}

#[test]
fn split_zero_amount() {
    let s = split(0, 10_000).expect("zero splits trivially");
    assert_eq!((s.reward, s.reserve, s.principal), (0, 0, 0));
}

#[test]
fn initialize_defaults() {
    let store = initialize(None, [9u8; 32]).expect("fresh deployment");
    assert_eq!(store.pool_authority, [9u8; 32]);
    assert_eq!(store.accumulated_yot, 0);
    assert_eq!(store.cashback_bps, 500);
    assert_eq!(store.liquidity_threshold, 100_000_000);
    assert_eq!(store.weekly_apr_bps, 7000);
}

#[test]
fn initialize_refuses_second_store() {
    let store = fresh_store();
    assert_eq!(
        initialize(Some(&store), [1u8; 32]).unwrap_err(),
        DistributionError::AlreadyInitialized
    );
}

#[test]
fn set_params_overwrites_configuration() {
    let mut store = fresh_store();
    let accumulated = store.accumulated_yot;
    set_params(&mut store, 12_000, 42, 1);
    assert_eq!(store.cashback_bps, 12_000);
    assert_eq!(store.liquidity_threshold, 42);
    assert_eq!(store.weekly_apr_bps, 1);
    assert_eq!(store.accumulated_yot, accumulated);
    assert_eq!(store.pool_authority, [7u8; 32]);
}

#[test]
fn distribute_moves_all_three_shares() {
    let mut store = fresh_store();
    let mut accounts = AccountBalances {
        source: 10_000,
        user_destination: 3,
        reserve_vault: 4,
        reward_destination: 5,
    };
    distribute(&mut store, &mut accounts, 10_000).expect("distribution commits");
    assert_eq!(accounts.source, 10_000 - 7500 - 2000);
    assert_eq!(accounts.user_destination, 3 + 7500);
    assert_eq!(accounts.reserve_vault, 4 + 2000);
    assert_eq!(accounts.reward_destination, 5 + 500);
    assert_eq!(store.accumulated_yot, 2000);
}

#[test]
fn distribute_insufficient_balance_changes_nothing() {
    let mut store = fresh_store();
    let before_store = store;
    let mut accounts = AccountBalances {
        source: 9_499,
        user_destination: 3,
        reserve_vault: 4,
        reward_destination: 5,
    };
    let before = accounts;
    // The outgoing principal + reserve of a 10_000 distribution is 9_500.
    assert_eq!(
        distribute(&mut store, &mut accounts, 10_000),
        Err(DistributionError::InsufficientBalance)
    );
    assert_eq!(accounts, before);
    assert_eq!(store.accumulated_yot, before_store.accumulated_yot);
    assert_eq!(store.cashback_bps, before_store.cashback_bps);
}

#[test]
fn distribute_overflowing_destination_changes_nothing() {
    let mut store = fresh_store();
    let mut accounts = AccountBalances {
        source: 10_000,
        user_destination: u64::MAX,
        reserve_vault: 0,
        reward_destination: 0,
    };
    let before = accounts;
    assert_eq!(
        distribute(&mut store, &mut accounts, 10_000),
        Err(DistributionError::ArithmeticOverflow)
    );
    assert_eq!(accounts, before);
    assert_eq!(store.accumulated_yot, 0);
}

#[test]
fn distribute_misconfigured_rate_fails_fast() {
    let mut store = fresh_store();
    let threshold = store.liquidity_threshold;
    let weekly = store.weekly_apr_bps;
    set_params(&mut store, 9000, threshold, weekly);
    let mut accounts = AccountBalances {
        source: 100,
        user_destination: 0,
        reserve_vault: 0,
        reward_destination: 0,
    };
    assert_eq!(
        distribute(&mut store, &mut accounts, 100),
        Err(DistributionError::ArithmeticOverflow)
    );
    assert_eq!(accounts.source, 100);
    assert_eq!(store.accumulated_yot, 0);
}

#[test]
fn accumulator_sums_reserve_shares() {
    let mut store = fresh_store();
    let mut accounts = AccountBalances {
        source: 1_000_000,
        user_destination: 0,
        reserve_vault: 0,
        reward_destination: 0,
    };
    let amounts = [10_000u64, 5_000, 25_000];
    let mut expected: u64 = 0;
    for amount in amounts {
        distribute(&mut store, &mut accounts, amount).expect("distribution commits");
        expected += amount * 20 / 100;
    }
    assert_eq!(expected, 2000 + 1000 + 5000);
    assert_eq!(store.accumulated_yot, expected);
    assert_eq!(accounts.reserve_vault, expected);
}

#[test]
fn trigger_fires_at_most_once() {
    let mut store = fresh_store();
    set_params(&mut store, 500, 1_000, 7000);
    store.accumulated_yot = 1_500;
    assert_eq!(maybe_trigger(&mut store), TriggerOutcome::Fired);
    assert_eq!(store.accumulated_yot, 0);
    assert_eq!(maybe_trigger(&mut store), TriggerOutcome::NotMet);
    assert_eq!(store.accumulated_yot, 0);
}

#[test]
fn trigger_boundary_is_inclusive() {
    let mut store = fresh_store();
    set_params(&mut store, 500, 1_000, 7000);
    store.accumulated_yot = 999;
    assert_eq!(maybe_trigger(&mut store), TriggerOutcome::NotMet);
    assert_eq!(store.accumulated_yot, 999);
    store.accumulated_yot = 1_000;
    assert_eq!(maybe_trigger(&mut store), TriggerOutcome::Fired);
    assert_eq!(store.accumulated_yot, 0);
}

#[test]
fn end_to_end_fifty_distributions_fire_trigger() {
    let mut store = fresh_store();
    // The default threshold of 100_000_000 is unreachable at this scale;
    // lower it so that fifty distributions can cross it.
    let bps = store.cashback_bps;
    let weekly = store.weekly_apr_bps;
    set_params(&mut store, bps, 100_000, weekly);
    let mut accounts = AccountBalances {
        source: 500_000,
        user_destination: 0,
        reserve_vault: 0,
        reward_destination: 0,
    };
    distribute(&mut store, &mut accounts, 10_000).expect("distribution commits");
    assert_eq!(accounts.reward_destination, 500);
    assert_eq!(accounts.reserve_vault, 2000);
    assert_eq!(accounts.user_destination, 7500);
    assert_eq!(store.accumulated_yot, 2000);
    assert_eq!(maybe_trigger(&mut store), TriggerOutcome::NotMet);
    for _ in 0..49 {
        distribute(&mut store, &mut accounts, 10_000).expect("distribution commits");
    }
    assert_eq!(store.accumulated_yot, 100_000);
    assert_eq!(maybe_trigger(&mut store), TriggerOutcome::Fired);
    assert_eq!(store.accumulated_yot, 0);
}
