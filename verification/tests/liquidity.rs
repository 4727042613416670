use face_swap::errors::ErrorCode;
use face_swap::initialize::{
    create_pool, create_tick, initialize_fee_collector, initialize_pool, initialize_tick,
};
use face_swap::liquidity::add_liquidity;
use face_swap::state::{FeeCollector, Pool, Position, Tick};
use face_swap::swap::swap;

const Q64: u128 = 1u128 << 64;
const ALICE: [u8; 32] = [7u8; 32];
const BOB: [u8; 32] = [9u8; 32];

#[test]
fn fresh_records() {
    assert_eq!(
        initialize_pool(Q64, -5),
        Pool { sqrt_price_x64: Q64, current_tick: -5, liquidity: 0 }
    );
    assert_eq!(initialize_tick(42), Tick { tick_index: 42, liquidity_net: 0 });
    assert_eq!(initialize_fee_collector(), FeeCollector { fees: 0 });
    assert_eq!(create_pool(3, 4), initialize_pool(3, 4));
    assert_eq!(create_tick(-7), initialize_tick(-7));
}

#[test]
fn deposit_then_swap_at_price_one() {
    let mut pool = initialize_pool(Q64, 0);
    let mut lower = initialize_tick(-100);
    let mut upper = initialize_tick(100);
    let mut collector = initialize_fee_collector();

    let position = add_liquidity(&mut pool, &mut lower, &mut upper, ALICE, 1_000_000, -100, 100);
    assert_eq!(
        position,
        Ok(Position { owner: ALICE, liquidity_delta: 1_000_000, lower_tick: -100, upper_tick: 100 })
    );
    assert_eq!(pool.liquidity, 1_000_000);
    assert_eq!(lower.liquidity_net, 1_000_000);
    assert_eq!(upper.liquidity_net, -1_000_000);

    let swapped = swap(&mut pool, &mut collector, 1000, true);
    assert_eq!(swapped, Ok((1000, 996, 3)));
    assert!(pool.sqrt_price_x64 < Q64);
    assert_eq!(pool.sqrt_price_x64, 18428370987834680439);
    assert_eq!(pool.current_tick, 0);
    assert_eq!(pool.liquidity, 1_000_000);
    assert_eq!(collector.fees, 3);
}

#[test]
fn reversed_or_empty_range_is_refused() {
    for (lower_tick, upper_tick) in [(100, -100), (5, 5), (0, 0), (i32::MAX, i32::MIN), (1, 0)] {
        let mut pool = Pool { sqrt_price_x64: Q64, current_tick: 3, liquidity: 77 };
        let mut lower = Tick { tick_index: 11, liquidity_net: 5 };
        let mut upper = Tick { tick_index: 12, liquidity_net: -5 };
        let r = add_liquidity(&mut pool, &mut lower, &mut upper, ALICE, 10, lower_tick, upper_tick);
        assert_eq!(r, Err(ErrorCode::InvalidTickRange));
        assert_eq!(pool, Pool { sqrt_price_x64: Q64, current_tick: 3, liquidity: 77 });
        assert_eq!(lower, Tick { tick_index: 11, liquidity_net: 5 });
        assert_eq!(upper, Tick { tick_index: 12, liquidity_net: -5 });
    }
}

#[test]
fn tick_nets_move_by_the_delta_and_cancel() {
    let mut pool = initialize_pool(Q64, 500);
    let mut lower = Tick { tick_index: -10, liquidity_net: 40 };
    let mut upper = Tick { tick_index: 10, liquidity_net: -15 };
    let r = add_liquidity(&mut pool, &mut lower, &mut upper, BOB, 25, -10, 10);
    assert!(r.is_ok());
    assert_eq!(lower.liquidity_net, 65);
    assert_eq!(upper.liquidity_net, -40);
    assert_eq!((lower.liquidity_net - 40) + (upper.liquidity_net + 15), 0);
}

#[test]
fn tick_records_take_the_boundaries_of_the_range() {
    let mut pool = initialize_pool(Q64, 0);
    let mut lower = Tick { tick_index: 1, liquidity_net: 0 };
    let mut upper = Tick { tick_index: 2, liquidity_net: 0 };
    add_liquidity(&mut pool, &mut lower, &mut upper, ALICE, 9, -60, 60).unwrap();
    assert_eq!(lower, Tick { tick_index: -60, liquidity_net: 9 });
    assert_eq!(upper, Tick { tick_index: 60, liquidity_net: -9 });
}

#[test]
fn liquidity_is_active_only_inside_the_range() {
    for (current_tick, active) in
        [(-101, false), (-100, true), (0, true), (99, true), (100, false), (101, false)]
    {
        let mut pool = Pool { sqrt_price_x64: Q64, current_tick, liquidity: 5 };
        let mut lower = initialize_tick(-100);
        let mut upper = initialize_tick(100);
        let r = add_liquidity(&mut pool, &mut lower, &mut upper, ALICE, 1000, -100, 100);
        assert!(r.is_ok());
        assert_eq!(pool.liquidity, if active { 1005 } else { 5 });
        assert_eq!(pool.current_tick, current_tick);
        assert_eq!(pool.sqrt_price_x64, Q64);
        assert_eq!(lower.liquidity_net, 1000);
        assert_eq!(upper.liquidity_net, -1000);
    }
}

#[test]
fn each_deposit_gives_a_position_of_its_own() {
    let mut pool = initialize_pool(Q64, 0);
    let mut lower = initialize_tick(-1);
    let mut upper = initialize_tick(1);
    let first = add_liquidity(&mut pool, &mut lower, &mut upper, ALICE, 10, -1, 1).unwrap();
    let second = add_liquidity(&mut pool, &mut lower, &mut upper, ALICE, 10, -1, 1).unwrap();
    assert_eq!(first, second);
    assert_eq!(first.liquidity_delta, 10);
    assert_eq!(pool.liquidity, 20);
    assert_eq!(lower.liquidity_net, 20);
    assert_eq!(upper.liquidity_net, -20);
}

#[test]
fn deposit_overflowing_the_pool_is_refused() {
    let before = Pool { sqrt_price_x64: Q64, current_tick: 0, liquidity: u128::MAX - 1 };
    let mut pool = before;
    let mut lower = Tick { tick_index: -100, liquidity_net: 3 };
    let mut upper = Tick { tick_index: 100, liquidity_net: -3 };
    let r = add_liquidity(&mut pool, &mut lower, &mut upper, ALICE, u128::MAX, -100, 100);
    assert_eq!(r, Err(ErrorCode::Overflow));
    assert_eq!(pool, before);
    assert_eq!(lower, Tick { tick_index: -100, liquidity_net: 3 });
    assert_eq!(upper, Tick { tick_index: 100, liquidity_net: -3 });

    let r = add_liquidity(&mut pool, &mut lower, &mut upper, ALICE, 2, -100, 100);
    assert_eq!(r, Err(ErrorCode::Overflow));
    assert_eq!(pool, before);
    let r = add_liquidity(&mut pool, &mut lower, &mut upper, ALICE, 1, -100, 100);
    assert!(r.is_ok());
    assert_eq!(pool.liquidity, u128::MAX);
}

#[test]
fn deposit_overflowing_a_tick_is_refused() {
    let before = Pool { sqrt_price_x64: Q64, current_tick: 0, liquidity: 1 };

    let mut pool = before;
    let mut lower = Tick { tick_index: -1, liquidity_net: i128::MAX - 4 };
    let mut upper = Tick { tick_index: 1, liquidity_net: 0 };
    let r = add_liquidity(&mut pool, &mut lower, &mut upper, ALICE, 5, -1, 1);
    assert_eq!(r, Err(ErrorCode::Overflow));
    assert_eq!(pool, before);
    assert_eq!(lower.liquidity_net, i128::MAX - 4);
    assert_eq!(upper.liquidity_net, 0);

    let mut lower = Tick { tick_index: -1, liquidity_net: 0 };
    let mut upper = Tick { tick_index: 1, liquidity_net: i128::MIN + 4 };
    let r = add_liquidity(&mut pool, &mut lower, &mut upper, ALICE, 5, -1, 1);
    assert_eq!(r, Err(ErrorCode::Overflow));
    assert_eq!(pool, before);
    assert_eq!(lower.liquidity_net, 0);
    assert_eq!(upper.liquidity_net, i128::MIN + 4);

    let r = add_liquidity(&mut pool, &mut lower, &mut upper, ALICE, 4, -1, 1);
    assert!(r.is_ok());
    assert_eq!(upper.liquidity_net, i128::MIN);
}

#[test]
fn delta_beyond_the_signed_range() {
    let mut pool = initialize_pool(Q64, 1000);
    let mut lower = initialize_tick(-1);
    let mut upper = initialize_tick(1);
    let r = add_liquidity(&mut pool, &mut lower, &mut upper, ALICE, u128::MAX, -1, 1);
    assert_eq!(r, Err(ErrorCode::Overflow));
    assert_eq!(lower.liquidity_net, 0);
    assert_eq!(upper.liquidity_net, 0);

    let delta = (1u128 << 127) + 5;
    let mut lower = Tick { tick_index: -1, liquidity_net: i128::MIN };
    let mut upper = Tick { tick_index: 1, liquidity_net: i128::MAX };
    let r = add_liquidity(&mut pool, &mut lower, &mut upper, ALICE, delta, -1, 1);
    assert!(r.is_ok());
    assert_eq!(lower.liquidity_net, 5);
    assert_eq!(upper.liquidity_net, -6);
    assert_eq!(pool.liquidity, 0);
}

#[test]
fn swap_without_liquidity_changes_nothing() {
    for amount_in in [0u64, 1000, u64::MAX] {
        for zero_for_one in [true, false] {
            let mut pool = initialize_pool(Q64, 0);
            let mut collector = FeeCollector { fees: 17 };
            let r = swap(&mut pool, &mut collector, amount_in, zero_for_one);
            assert_eq!(r, Err(ErrorCode::ZeroLiquidity));
            assert_eq!(pool, initialize_pool(Q64, 0));
            assert_eq!(collector, FeeCollector { fees: 17 });
        }
    }
}

#[test]
fn swap_upwards_raises_the_price() {
    let mut pool = Pool { sqrt_price_x64: Q64, current_tick: 0, liquidity: 1_000_000 };
    let mut collector = FeeCollector { fees: 10 };
    let r = swap(&mut pool, &mut collector, 10_000, false);
    assert_eq!(r, Ok((10_000, 9969, 30)));
    assert_eq!(pool.sqrt_price_x64, 18630658112124435845);
    assert!(pool.sqrt_price_x64 > Q64);
    assert_eq!(pool.current_tick, 0);
    assert_eq!(pool.liquidity, 1_000_000);
    assert_eq!(collector.fees, 40);
}

#[test]
fn fees_add_up_over_swaps() {
    let mut pool = Pool { sqrt_price_x64: Q64, current_tick: 0, liquidity: 1u128 << 64 };
    let mut collector = initialize_fee_collector();
    let mut total = 0u64;
    for amount_in in [1000u64, 334, 1, 10_000] {
        let before = collector.fees;
        let (_, _, fee) = swap(&mut pool, &mut collector, amount_in, amount_in % 2 == 0).unwrap();
        assert!(collector.fees >= before);
        total += fee;
    }
    assert_eq!(total, 3 + 2 + 1 + 30);
    assert_eq!(collector.fees, total);
}

#[test]
fn swap_overflowing_the_collector_changes_nothing() {
    let before = Pool { sqrt_price_x64: Q64, current_tick: 0, liquidity: 1_000_000 };
    let mut pool = before;
    let mut collector = FeeCollector { fees: u64::MAX - 2 };
    let r = swap(&mut pool, &mut collector, 1000, true);
    assert_eq!(r, Err(ErrorCode::Overflow));
    assert_eq!(pool, before);
    assert_eq!(collector.fees, u64::MAX - 2);

    let mut collector = FeeCollector { fees: u64::MAX - 3 };
    let r = swap(&mut pool, &mut collector, 1000, true);
    assert_eq!(r, Ok((1000, 996, 3)));
    assert_eq!(collector.fees, u64::MAX);
}

#[test]
fn swap_failing_in_the_step_changes_nothing() {
    let before = Pool { sqrt_price_x64: u128::MAX, current_tick: 0, liquidity: 1 };
    let mut pool = before;
    let mut collector = FeeCollector { fees: 1 };
    assert_eq!(swap(&mut pool, &mut collector, 1000, false), Err(ErrorCode::Overflow));
    assert_eq!(pool, before);
    assert_eq!(collector.fees, 1);
    assert_eq!(swap(&mut pool, &mut collector, u64::MAX, true), Err(ErrorCode::Overflow));
    assert_eq!(pool, before);
    assert_eq!(collector.fees, 1);
}
