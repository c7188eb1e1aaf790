use pidaosphere::errors::ErrorCode;
use pidaosphere::errors::ErrorKind;
use pidaosphere::pool::PoolState;
use pidaosphere::pool::SwapDirection;

const TOKEN_A: u64 = 1;
const TOKEN_B: u64 = 2;
const RESERVE_A: u64 = 3;
const RESERVE_B: u64 = 4;
const LP_MINT: u64 = 5;

fn empty_pool(fee: u64) -> PoolState {
    PoolState::initialize_pool(TOKEN_A, TOKEN_B, RESERVE_A, RESERVE_B, LP_MINT, fee).unwrap()
}

fn product(pool: &PoolState) -> u128 {
    (pool.token_a_amount as u128) * (pool.token_b_amount as u128)
}

#[test]
fn initialize_pool_starts_empty() {
    let pool = empty_pool(30);
    assert_eq!(pool.token_a, TOKEN_A);
    assert_eq!(pool.token_b, TOKEN_B);
    assert_eq!(pool.token_a_reserve, RESERVE_A);
    assert_eq!(pool.token_b_reserve, RESERVE_B);
    assert_eq!(pool.lp_token_mint, LP_MINT);
    assert_eq!(pool.total_liquidity, 0);
    assert_eq!(pool.token_a_amount, 0);
    assert_eq!(pool.token_b_amount, 0);
    assert_eq!(pool.fee, 30);
}

#[test]
fn initialize_pool_rejects_fee_above_ten_thousand() {
    let r = PoolState::initialize_pool(TOKEN_A, TOKEN_B, RESERVE_A, RESERVE_B, LP_MINT, 10001);
    assert_eq!(r.err(), Some(ErrorCode::InvalidConfig));
    assert!(PoolState::initialize_pool(TOKEN_A, TOKEN_B, RESERVE_A, RESERVE_B, LP_MINT, 10000)
        .is_ok());
}

#[test]
fn scenario_first_deposit_mints_geometric_mean() {
    let mut pool = empty_pool(30);
    let ev = pool.add_liquidity(100, 400, 100, 400, 7).unwrap();
    assert_eq!(ev.lp_amount, 200);
    assert_eq!(ev.amount_a, 100);
    assert_eq!(ev.amount_b, 400);
    assert_eq!(ev.timestamp, 7);
    assert_eq!(pool.total_liquidity, 200);
    assert_eq!(pool.token_a_amount, 100);
    assert_eq!(pool.token_b_amount, 400);
}

#[test]
fn first_deposit_must_fund_both_sides() {
    let mut pool = empty_pool(0);
    assert_eq!(pool.add_liquidity(0, 400, 0, 400, 0).err(),
        Some(ErrorCode::InvalidLiquidityAmount));
    assert_eq!(pool.add_liquidity(100, 0, 100, 0, 0).err(),
        Some(ErrorCode::InvalidLiquidityAmount));
    assert_eq!(pool.total_liquidity, 0);
}

#[test]
fn add_liquidity_needs_balances() {
    let mut pool = empty_pool(0);
    assert_eq!(pool.add_liquidity(100, 400, 99, 400, 0).err(),
        Some(ErrorCode::InsufficientFunds));
    assert_eq!(pool.add_liquidity(100, 400, 100, 399, 0).err(),
        Some(ErrorCode::InsufficientFunds));
    assert_eq!(pool.total_liquidity, 0);
}

#[test]
fn later_deposit_mints_smaller_proportional_share() {
    let mut pool = empty_pool(0);
    pool.add_liquidity(100, 400, 100, 400, 0).unwrap();
    let ev = pool.add_liquidity(50, 200, 50, 200, 1).unwrap();
    assert_eq!(ev.lp_amount, 100);
    assert_eq!(pool.total_liquidity, 300);
    assert_eq!(pool.token_a_amount, 150);
    assert_eq!(pool.token_b_amount, 600);
    // a deposit out of ratio is credited for its smaller side only
    let ev = pool.add_liquidity(150, 200, 150, 200, 2).unwrap();
    assert_eq!(ev.lp_amount, 100);
}

#[test]
fn add_liquidity_overflow_on_reserve() {
    let mut pool = empty_pool(0);
    pool.add_liquidity(u64::MAX, u64::MAX, u64::MAX, u64::MAX, 0).unwrap();
    assert_eq!(pool.total_liquidity, u64::MAX);
    let r = pool.add_liquidity(u64::MAX, 1, u64::MAX, 1, 1);
    assert_eq!(r.err(), Some(ErrorCode::Overflow));
}

#[test]
fn remove_liquidity_round_trip_returns_at_most_deposit() {
    let mut pool = empty_pool(0);
    pool.add_liquidity(100, 400, 100, 400, 0).unwrap();
    // balanced second deposit comes back exactly
    let minted = pool.add_liquidity(50, 200, 50, 200, 1).unwrap();
    let ev = pool.remove_liquidity(minted.lp_amount, minted.lp_amount, 2).unwrap();
    assert_eq!(ev.amount_a, 50);
    assert_eq!(ev.amount_b, 200);
    // an imbalanced deposit loses its excess to the pool
    let minted = pool.add_liquidity(60, 200, 60, 200, 3).unwrap();
    assert_eq!(minted.lp_amount, 100);
    let ev = pool.remove_liquidity(minted.lp_amount, minted.lp_amount, 4).unwrap();
    assert!(ev.amount_a <= 60);
    assert!(ev.amount_b <= 200);
    assert_eq!(ev.amount_a, 53);
    assert_eq!(ev.amount_b, 200);
}

#[test]
fn remove_liquidity_drains_pool_exactly() {
    let mut pool = empty_pool(0);
    pool.add_liquidity(100, 400, 100, 400, 0).unwrap();
    let ev = pool.remove_liquidity(200, 200, 1).unwrap();
    assert_eq!(ev.amount_a, 100);
    assert_eq!(ev.amount_b, 400);
    assert_eq!(pool.total_liquidity, 0);
    assert_eq!(pool.token_a_amount, 0);
    assert_eq!(pool.token_b_amount, 0);
}

#[test]
fn remove_liquidity_keeps_dust_for_the_pool() {
    let mut pool = empty_pool(0);
    pool.add_liquidity(10, 10, 10, 10, 0).unwrap();
    let ev = pool.remove_liquidity(3, 3, 1).unwrap();
    assert_eq!(ev.amount_a, 3);
    assert_eq!(ev.amount_b, 3);
    let mut pool = empty_pool(0);
    pool.add_liquidity(7, 7, 7, 7, 0).unwrap();
    let ev = pool.remove_liquidity(2, 2, 1).unwrap();
    // 2 * 7 / 7 == 2 exactly; try a case that floors
    assert_eq!(ev.amount_a, 2);
    let mut pool = empty_pool(0);
    pool.add_liquidity(2, 8, 2, 8, 0).unwrap();
    assert_eq!(pool.total_liquidity, 4);
    let ev = pool.remove_liquidity(3, 3, 1).unwrap();
    assert_eq!(ev.amount_a, 1); // floor(3 * 2 / 4)
    assert_eq!(ev.amount_b, 6); // floor(3 * 8 / 4)
    assert_eq!(pool.token_a_amount, 1);
    assert_eq!(pool.token_b_amount, 2);
    assert_eq!(pool.total_liquidity, 1);
}

#[test]
fn remove_liquidity_rejects_more_than_supply() {
    let mut pool = empty_pool(0);
    pool.add_liquidity(100, 400, 100, 400, 0).unwrap();
    assert_eq!(pool.remove_liquidity(201, 201, 1).err(), Some(ErrorCode::InsufficientLiquidity));
    assert_eq!(pool.remove_liquidity(0, 0, 1).ok().map(|ev| ev.amount_a), Some(0));
}

#[test]
fn remove_liquidity_rejects_empty_pool() {
    let mut pool = empty_pool(0);
    assert_eq!(pool.remove_liquidity(0, 0, 1).err(), Some(ErrorCode::InsufficientLiquidity));
}

#[test]
fn remove_liquidity_needs_share_balance() {
    let mut pool = empty_pool(0);
    pool.add_liquidity(100, 400, 100, 400, 0).unwrap();
    assert_eq!(pool.remove_liquidity(100, 99, 1).err(), Some(ErrorCode::InsufficientFunds));
}

#[test]
fn scenario_swap_with_thirty_bps_fee() {
    let mut pool = empty_pool(30);
    pool.add_liquidity(10000, 10000, 10000, 10000, 0).unwrap();
    let before = product(&pool);
    let ev = pool.swap(1000, 900, SwapDirection::AToB, 1).unwrap();
    assert_eq!(ev.fee_amount, 3);
    assert_eq!(ev.amount_out, 906); // floor(997 * 10000 / 10997)
    assert_eq!(pool.token_a_amount, 11000);
    assert_eq!(pool.token_b_amount, 9094);
    assert!(product(&pool) > before);
}

#[test]
fn swap_rejects_slippage() {
    let mut pool = empty_pool(30);
    pool.add_liquidity(10000, 10000, 10000, 10000, 0).unwrap();
    assert_eq!(pool.swap(1000, 907, SwapDirection::AToB, 1).err(),
        Some(ErrorCode::SlippageExceeded));
    assert_eq!(pool.token_a_amount, 10000);
    assert_eq!(pool.token_b_amount, 10000);
}

#[test]
fn swap_rejects_empty_pool() {
    let mut pool = empty_pool(30);
    assert_eq!(pool.swap(1000, 0, SwapDirection::AToB, 1).err(),
        Some(ErrorCode::InsufficientLiquidity));
}

#[test]
fn swap_directions_are_symmetric() {
    let mut pool = empty_pool(30);
    pool.add_liquidity(10000, 20000, 10000, 20000, 0).unwrap();
    let ev = pool.swap(1000, 0, SwapDirection::BToA, 1).unwrap();
    // selling B for A: fee 3, net 997, floor(997 * 10000 / 20997) == 474
    assert_eq!(ev.fee_amount, 3);
    assert_eq!(ev.amount_out, 474);
    assert_eq!(pool.token_b_amount, 21000);
    assert_eq!(pool.token_a_amount, 9526);
}

#[test]
fn swap_product_never_decreases_over_a_sequence() {
    let mut pool = empty_pool(30);
    pool.add_liquidity(10000, 10000, 10000, 10000, 0).unwrap();
    let mut last: u128 = product(&pool);
    let trades: [(u64, SwapDirection); 6] = [
        (1000, SwapDirection::AToB),
        (2500, SwapDirection::BToA),
        (1, SwapDirection::AToB),
        (999, SwapDirection::BToA),
        (5000, SwapDirection::AToB),
        (42, SwapDirection::BToA),
    ];
    for (amount, direction) in trades {
        pool.swap(amount, 0, direction, 1).unwrap();
        let now: u128 = product(&pool);
        assert!(now >= last);
        last = now;
    }
}

#[test]
fn swap_with_positive_fee_strictly_grows_product() {
    let mut pool = empty_pool(30);
    pool.add_liquidity(10000, 10000, 10000, 10000, 0).unwrap();
    let before = product(&pool);
    // 334 * 30 / 10000 == 1: the smallest trade with a positive fee here
    let ev = pool.swap(334, 0, SwapDirection::AToB, 1).unwrap();
    assert_eq!(ev.fee_amount, 1);
    assert!(product(&pool) > before);
}

#[test]
fn swap_with_full_fee_keeps_everything() {
    let mut pool = empty_pool(10000);
    pool.add_liquidity(100, 100, 100, 100, 0).unwrap();
    let ev = pool.swap(50, 0, SwapDirection::AToB, 1).unwrap();
    assert_eq!(ev.fee_amount, 50);
    assert_eq!(ev.amount_out, 0);
    assert_eq!(pool.token_a_amount, 150);
    assert_eq!(pool.token_b_amount, 100);
}

#[test]
fn swap_overflow_on_input_reserve() {
    let mut pool = empty_pool(0);
    pool.add_liquidity(u64::MAX, 1, u64::MAX, 1, 0).unwrap();
    // net input prices to zero output, so the quote passes and the reserve
    // addition is what overflows
    assert_eq!(pool.swap(u64::MAX, 0, SwapDirection::AToB, 1).err(),
        Some(ErrorCode::Overflow));
}

#[test]
fn pool_error_kinds_classify() {
    assert_eq!(ErrorCode::InvalidConfig.kind(), ErrorKind::Config);
    assert_eq!(ErrorCode::InvalidLiquidityAmount.kind(), ErrorKind::Config);
    assert_eq!(ErrorCode::InsufficientLiquidity.kind(), ErrorKind::InsufficientFunds);
    assert_eq!(ErrorCode::InsufficientFunds.kind(), ErrorKind::InsufficientFunds);
    assert_eq!(ErrorCode::SlippageExceeded.kind(), ErrorKind::Slippage);
    assert_eq!(ErrorCode::Overflow.kind(), ErrorKind::Arithmetic);
}
