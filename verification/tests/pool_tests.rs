use ez_token_swap::{
    deposit_commit, deposit_liquidity, deposit_prepare, ErrorCode, InitPoolParams, PoolRegistry,
    PoolState,
};

fn params(a_mint: u64, b_mint: u64) -> InitPoolParams {
    InitPoolParams {
        bump_seed: 254,
        pool_authority: 900,
        pool_authority_bump_seed: 253,
        token_a: 11,
        token_b: 12,
        pool_mint: 13,
        pool_mint_authority: 900,
        token_a_mint: a_mint,
        token_b_mint: b_mint,
    }
}

fn seeded_pool(reserve_a: u64, reserve_b: u64, supply: u64) -> PoolState {
    PoolState {
        is_initialized: true,
        bump_seed: 254,
        pool_authority: 900,
        pool_authority_bump_seed: 253,
        token_a: 11,
        token_b: 12,
        pool_mint: 13,
        token_a_mint: 21,
        token_b_mint: 22,
        total_supply: supply,
        amount_a: reserve_a,
        amount_b: reserve_b,
    }
}

#[test]
fn first_deposit_issues_geometric_mean() {
    let mut pool = seeded_pool(0, 0, 0);
    let shares = deposit_liquidity(&mut pool, 100, 400, true, true, true).unwrap();
    assert_eq!(shares, 200);
    assert_eq!(pool.amount_a, 100);
    assert_eq!(pool.amount_b, 400);
    assert_eq!(pool.total_supply, 200);
}

#[test]
fn later_deposit_is_priced_at_the_worse_ratio() {
    // sharesFromA = floor(50 * 200 / 100) = 100,
    // sharesFromB = floor(100 * 200 / 400) = 50: the minimum wins.
    let mut pool = seeded_pool(100, 400, 200);
    let shares = deposit_liquidity(&mut pool, 50, 100, true, true, true).unwrap();
    assert_eq!(shares, 50);
    assert_eq!(pool.amount_a, 150);
    assert_eq!(pool.amount_b, 500);
    assert_eq!(pool.total_supply, 250);
}

#[test]
fn sequential_deposits_compose_without_stale_snapshots() {
    let mut stepwise = seeded_pool(0, 0, 0);
    let s1 = deposit_liquidity(&mut stepwise, 100, 400, true, true, true).unwrap();
    let s2 = deposit_liquidity(&mut stepwise, 50, 100, true, true, true).unwrap();
    // The second step is priced against the reserves the first step left.
    let mut resumed = seeded_pool(100, 400, s1);
    let s2_again = deposit_liquidity(&mut resumed, 50, 100, true, true, true).unwrap();
    assert_eq!(s2, s2_again);
    assert_eq!(stepwise.amount_a, 100 + 50);
    assert_eq!(stepwise.amount_b, 400 + 100);
    assert_eq!(stepwise.total_supply, s1 + s2);
    assert_eq!(stepwise, resumed);
}

#[test]
fn failed_second_transfer_settles_nothing() {
    let mut pool = seeded_pool(100, 400, 200);
    let before = pool;
    let r = deposit_liquidity(&mut pool, 50, 100, true, false, true);
    assert_eq!(r, Err(ErrorCode::TransferFailed));
    assert_eq!(pool, before);
}

#[test]
fn failed_first_transfer_settles_nothing() {
    let mut pool = seeded_pool(100, 400, 200);
    let before = pool;
    let r = deposit_liquidity(&mut pool, 50, 100, false, false, true);
    assert_eq!(r, Err(ErrorCode::TransferFailed));
    assert_eq!(pool, before);
}

#[test]
fn failed_issuance_settles_nothing() {
    let mut pool = seeded_pool(100, 400, 200);
    let before = pool;
    let r = deposit_liquidity(&mut pool, 50, 100, true, true, false);
    assert_eq!(r, Err(ErrorCode::TransferFailed));
    assert_eq!(pool, before);
}

#[test]
fn deposit_into_uninitialized_pool_is_rejected() {
    let mut pool = seeded_pool(0, 0, 0);
    pool.is_initialized = false;
    let r = deposit_liquidity(&mut pool, 5, 5, true, true, true);
    assert_eq!(r, Err(ErrorCode::PoolNotInitialized));
    assert_eq!(deposit_prepare(&pool, 5, 5), Err(ErrorCode::PoolNotInitialized));
}

#[test]
fn zero_sided_first_deposit_is_rejected() {
    let pool = seeded_pool(0, 0, 0);
    assert_eq!(deposit_prepare(&pool, 0, 5), Err(ErrorCode::InvalidInput));
    assert_eq!(deposit_prepare(&pool, 5, 0), Err(ErrorCode::InvalidInput));
    assert_eq!(deposit_prepare(&pool, 0, 0), Err(ErrorCode::InvalidInput));
}

#[test]
fn zero_reserve_with_live_supply_is_division_by_zero() {
    // Possible only if reserves were mutated behind the registry's back.
    let pool = seeded_pool(0, 5, 7);
    assert_eq!(deposit_prepare(&pool, 1, 1), Err(ErrorCode::DivisionByZero));
}

#[test]
fn oversized_share_price_is_an_arithmetic_error() {
    // floor(2 * u64::MAX / 1) no longer fits in 64 bits.
    let pool = seeded_pool(1, 1, u64::MAX);
    assert_eq!(deposit_prepare(&pool, 2, 2), Err(ErrorCode::ArithmeticOverflow));
}

#[test]
fn reserve_counter_overflow_aborts_the_deposit() {
    let mut pool = seeded_pool(u64::MAX, 5, 3);
    let before = pool;
    let r = deposit_liquidity(&mut pool, 1, 0, true, true, true);
    assert_eq!(r, Err(ErrorCode::ArithmeticOverflow));
    assert_eq!(pool, before);
}

#[test]
fn zero_deposit_into_seeded_pool_issues_nothing() {
    let mut pool = seeded_pool(100, 400, 200);
    let before = pool;
    let r = deposit_liquidity(&mut pool, 0, 0, true, true, true);
    assert_eq!(r, Ok(0));
    assert_eq!(pool, before);
}

#[test]
fn supply_counter_overflow_aborts_the_deposit() {
    // Both ratios price the deposit at u64::MAX - 1 shares, which the
    // outstanding supply cannot absorb.
    let mut pool = seeded_pool(1, 1, u64::MAX - 1);
    let before = pool;
    let r = deposit_liquidity(&mut pool, 1, 1, true, true, true);
    assert_eq!(r, Err(ErrorCode::ArithmeticOverflow));
    assert_eq!(pool, before);
}

#[test]
fn commit_adds_exactly_the_declared_amounts() {
    let mut pool = seeded_pool(100, 400, 200);
    assert_eq!(deposit_commit(&mut pool, 7, 9, 4), Ok(()));
    assert_eq!(pool.amount_a, 107);
    assert_eq!(pool.amount_b, 409);
    assert_eq!(pool.total_supply, 204);
}

#[test]
fn create_pool_registers_a_zeroed_record() {
    let mut registry = PoolRegistry::new();
    let handle = registry.initialize_pool(params(21, 22)).unwrap();
    assert_eq!(handle, 0);
    assert_eq!(registry.len(), 1);
    let record = registry.pool(handle);
    assert!(record.is_initialized);
    assert_eq!(record.amount_a, 0);
    assert_eq!(record.amount_b, 0);
    assert_eq!(record.total_supply, 0);
    assert_eq!(record.token_a_mint, 21);
    assert_eq!(record.token_b_mint, 22);
}

#[test]
fn create_pool_twice_fails_with_already_exists() {
    let mut registry = PoolRegistry::new();
    registry.initialize_pool(params(21, 22)).unwrap();
    let again = registry.initialize_pool(params(21, 22));
    assert_eq!(again, Err(ErrorCode::AlreadyExists));
    // The unordered pair is the key: the swapped orientation is refused too.
    let swapped = registry.initialize_pool(params(22, 21));
    assert_eq!(swapped, Err(ErrorCode::AlreadyExists));
    assert_eq!(registry.len(), 1);
    let record = registry.pool(0);
    assert_eq!(record.amount_a, 0);
    assert_eq!(record.amount_b, 0);
    assert_eq!(record.total_supply, 0);
}

#[test]
fn foreign_mint_authority_is_rejected() {
    let mut registry = PoolRegistry::new();
    let mut bad = params(21, 22);
    bad.pool_mint_authority = 901;
    assert_eq!(registry.initialize_pool(bad), Err(ErrorCode::InvalidShareMint));
    assert_eq!(registry.len(), 0);
}

#[test]
fn find_pool_sees_both_orientations() {
    let mut registry = PoolRegistry::new();
    let handle = registry.initialize_pool(params(21, 22)).unwrap();
    assert_eq!(registry.find_pool(21, 22), Some(handle));
    assert_eq!(registry.find_pool(22, 21), Some(handle));
    assert_eq!(registry.find_pool(21, 23), None);
}

#[test]
fn registry_deposit_updates_only_the_addressed_pool() {
    let mut registry = PoolRegistry::new();
    let first = registry.initialize_pool(params(21, 22)).unwrap();
    let second = registry.initialize_pool(params(31, 32)).unwrap();
    let shares = registry.deposit(second, 100, 400, true, true, true).unwrap();
    assert_eq!(shares, 200);
    assert_eq!(registry.pool(first).amount_a, 0);
    assert_eq!(registry.pool(second).amount_a, 100);
    assert_eq!(registry.pool(second).amount_b, 400);
    assert_eq!(registry.pool(second).total_supply, 200);
}

#[test]
fn registry_deposit_failure_changes_nothing() {
    let mut registry = PoolRegistry::new();
    let handle = registry.initialize_pool(params(21, 22)).unwrap();
    let r = registry.deposit(handle, 100, 400, true, false, true);
    assert_eq!(r, Err(ErrorCode::TransferFailed));
    assert_eq!(registry.pool(handle).amount_a, 0);
    assert_eq!(registry.pool(handle).amount_b, 0);
    assert_eq!(registry.pool(handle).total_supply, 0);
}

#[test]
fn pool_record_size_matches_the_ledger_layout() {
    assert_eq!(PoolState::size(), 226);
}
