//! Deposit settlement: pricing a paired deposit against the pool's tracked
//! reserves, and applying the resulting share issuance and reserve update as
//! one all-or-nothing step.

use vstd::prelude::*;

verus! {

use crate::error::ErrorCode;
use crate::math::{
    isqrt_spec,
    lemma_isqrt_fits_u64,
    lemma_isqrt_pos,
    sqrt,
};
use crate::state::PoolState;

/// The product of two `u64` values always fits in a `u128`.
proof fn lemma_u64_mul_fits(x: u64, y: u64)
    ensures
        0 <= (x as int) * (y as int) <= (u64::MAX as int) * (u64::MAX as int),
        (x as int) * (y as int) <= u128::MAX as int,
{
    assert(0 <= (x as int) * (y as int) <= (u64::MAX as int) * (u64::MAX as int))
        by (nonlinear_arith)
        requires
            0 <= x as int <= u64::MAX as int,
            0 <= y as int <= u64::MAX as int,
    ;
    assert((u64::MAX as int) * (u64::MAX as int) <= u128::MAX as int) by (nonlinear_arith);
}

/// How many shares a deposit of `amount_a` and `amount_b` is worth against
/// `pool`'s tracked reserves.
///
/// An empty pool is seeded with the geometric mean of the two amounts; a
/// zero amount on either side is rejected, since it would leave the pool
/// partially seeded.  A non-empty pool prices the deposit at the less
/// favourable of the two proportional ratios, so a skewed deposit can never
/// extract excess shares.  A share amount that does not fit in a `u64` is an
/// arithmetic error, never a truncation.
pub open spec fn pricing_spec(pool: PoolState, amount_a: u64, amount_b: u64) -> Result<
    u64,
    ErrorCode,
> {
    if pool.is_empty() {
        if amount_a == 0 || amount_b == 0 {
            Err(ErrorCode::InvalidInput)
        } else {
            Ok((isqrt_spec((amount_a as int) * (amount_b as int)) as u64))
        }
    } else if pool.amount_a == 0 || pool.amount_b == 0 {
        Err(ErrorCode::DivisionByZero)
    } else {
        let shares_from_a = ((amount_a as int) * (pool.total_supply as int)) / (
        pool.amount_a as int);
        let shares_from_b = ((amount_b as int) * (pool.total_supply as int)) / (
        pool.amount_b as int);
        let shares = if shares_from_a <= shares_from_b {
            shares_from_a
        } else {
            shares_from_b
        };
        if shares > u64::MAX as int {
            Err(ErrorCode::ArithmeticOverflow)
        } else {
            Ok(shares as u64)
        }
    }
}

/// The reserve and supply update of a settled deposit: each counter grows by
/// the caller-declared amount, with checked additions.
pub open spec fn apply_deposit_spec(
    pool: PoolState,
    amount_a: u64,
    amount_b: u64,
    shares: u64,
) -> Result<PoolState, ErrorCode> {
    if (pool.amount_a as int) + (amount_a as int) > u64::MAX as int || (pool.amount_b as int) + (
    amount_b as int) > u64::MAX as int || (pool.total_supply as int) + (shares as int)
        > u64::MAX as int {
        Err(ErrorCode::ArithmeticOverflow)
    } else {
        Ok(
            PoolState {
                amount_a: (pool.amount_a + amount_a) as u64,
                amount_b: (pool.amount_b + amount_b) as u64,
                total_supply: (pool.total_supply + shares) as u64,
                ..pool
            },
        )
    }
}

/// The whole settlement of one deposit request, as a transition from the
/// pool record and the outcomes of the three external ledger operations (the
/// two asset transfers and the share issuance) to the new record and the
/// shares issued.  Every error leaves the record exactly as it was.
pub open spec fn settle_spec(
    pool: PoolState,
    amount_a: u64,
    amount_b: u64,
    transfer_a_ok: bool,
    transfer_b_ok: bool,
    issue_ok: bool,
) -> Result<(PoolState, u64), ErrorCode> {
    if !pool.is_initialized {
        Err(ErrorCode::PoolNotInitialized)
    } else if !transfer_a_ok || !transfer_b_ok {
        Err(ErrorCode::TransferFailed)
    } else {
        match pricing_spec(pool, amount_a, amount_b) {
            Err(e) => Err(e),
            Ok(shares) => if !issue_ok {
                Err(ErrorCode::TransferFailed)
            } else {
                match apply_deposit_spec(pool, amount_a, amount_b, shares) {
                    Err(e) => Err(e),
                    Ok(updated) => Ok((updated, shares)),
                }
            },
        }
    }
}

/// A settlement in which every external ledger operation succeeds.
pub open spec fn deposit_spec(pool: PoolState, amount_a: u64, amount_b: u64) -> Result<
    (PoolState, u64),
    ErrorCode,
> {
    settle_spec(pool, amount_a, amount_b, true, true, true)
}

/// Price a deposit without touching any state: the share amount the deposit
/// is worth, or the validation or arithmetic error that dooms it.
pub fn deposit_prepare(pool: &PoolState, amount_a: u64, amount_b: u64) -> (r: Result<
    u64,
    ErrorCode,
>)
    ensures
        !pool.is_initialized ==> r == Err::<u64, ErrorCode>(ErrorCode::PoolNotInitialized),
        pool.is_initialized ==> r == pricing_spec(*pool, amount_a, amount_b),
{
    if !pool.is_initialized {
        return Err(ErrorCode::PoolNotInitialized);
    }
    if pool.amount_a == 0 && pool.amount_b == 0 {
        if amount_a == 0 || amount_b == 0 {
            return Err(ErrorCode::InvalidInput);
        }
        proof {
            lemma_u64_mul_fits(amount_a, amount_b);
        }
        let radicand: u128 = (amount_a as u128) * (amount_b as u128);
        proof {
            lemma_isqrt_fits_u64(radicand as int);
        }
        match sqrt(radicand) {
            Some(root) => Ok(root as u64),
            None => Err(ErrorCode::ArithmeticOverflow),
        }
    } else if pool.amount_a == 0 || pool.amount_b == 0 {
        Err(ErrorCode::DivisionByZero)
    } else {
        proof {
            lemma_u64_mul_fits(amount_a, pool.total_supply);
            lemma_u64_mul_fits(amount_b, pool.total_supply);
        }
        let supply: u128 = pool.total_supply as u128;
        let shares_from_a: u128 = (amount_a as u128) * supply / (pool.amount_a as u128);
        let shares_from_b: u128 = (amount_b as u128) * supply / (pool.amount_b as u128);
        let shares: u128 = if shares_from_a <= shares_from_b {
            shares_from_a
        } else {
            shares_from_b
        };
        if shares > u64::MAX as u128 {
            Err(ErrorCode::ArithmeticOverflow)
        } else {
            Ok(shares as u64)
        }
    }
}

/// Apply a priced deposit to the pool record: reserves grow by the declared
/// amounts and the share supply by the shares issued.  On any overflow the
/// record is left untouched.
pub fn deposit_commit(pool: &mut PoolState, amount_a: u64, amount_b: u64, shares: u64) -> (r:
    Result<(), ErrorCode>)
    ensures
        match apply_deposit_spec(*old(pool), amount_a, amount_b, shares) {
            Ok(updated) => r == Ok::<(), ErrorCode>(()) && *final(pool) == updated,
            Err(e) => r == Err::<(), ErrorCode>(e) && *final(pool) == *old(pool),
        },
{
    if amount_a > u64::MAX - pool.amount_a || amount_b > u64::MAX - pool.amount_b || shares
        > u64::MAX - pool.total_supply {
        return Err(ErrorCode::ArithmeticOverflow);
    }
    pool.amount_a = pool.amount_a + amount_a;
    pool.amount_b = pool.amount_b + amount_b;
    pool.total_supply = pool.total_supply + shares;
    Ok(())
}

/// A successful deposit keeps the pool either fully empty or fully seeded.
pub proof fn lemma_deposit_preserves_consistency(pool: PoolState, amount_a: u64, amount_b: u64)
    requires
        pool.counters_consistent(),
        deposit_spec(pool, amount_a, amount_b) is Ok,
    ensures
        deposit_spec(pool, amount_a, amount_b)->Ok_0.0.counters_consistent(),
{
    let shares = pricing_spec(pool, amount_a, amount_b)->Ok_0;
    if pool.is_empty() {
        assert(pricing_spec(pool, amount_a, amount_b) is Ok);
        assert(amount_a != 0 && amount_b != 0);
        let radicand = (amount_a as int) * (amount_b as int);
        assert((amount_a as int) * (amount_b as int) >= 1) by (nonlinear_arith)
            requires
                amount_a as int >= 1,
                amount_b as int >= 1,
        ;
        lemma_isqrt_pos(radicand);
        lemma_u64_mul_fits(amount_a, amount_b);
        lemma_isqrt_fits_u64(radicand);
    }
}

/// Depositing two positive amounts into an empty, initialized pool always
/// succeeds and issues exactly the floor of the geometric mean of the two
/// amounts, leaving the amounts themselves as the reserves.
pub proof fn lemma_first_deposit_is_geometric_mean(pool: PoolState, amount_a: u64, amount_b: u64)
    requires
        pool.is_initialized,
        pool.is_empty(),
        pool.total_supply == 0,
        amount_a >= 1,
        amount_b >= 1,
    ensures
        deposit_spec(pool, amount_a, amount_b) is Ok,
        deposit_spec(pool, amount_a, amount_b)->Ok_0.1 == isqrt_spec(
            (amount_a as int) * (amount_b as int),
        ),
        deposit_spec(pool, amount_a, amount_b)->Ok_0.0.amount_a == amount_a,
        deposit_spec(pool, amount_a, amount_b)->Ok_0.0.amount_b == amount_b,
        deposit_spec(pool, amount_a, amount_b)->Ok_0.0.total_supply == isqrt_spec(
            (amount_a as int) * (amount_b as int),
        ),
{
    lemma_u64_mul_fits(amount_a, amount_b);
    lemma_isqrt_fits_u64((amount_a as int) * (amount_b as int));
}

/// Two sequential deposits compose: the second is priced against the
/// reserves and supply left by the first, never against a stale snapshot,
/// and the final counters are the sums of each step's own contribution.
pub proof fn lemma_sequential_deposits(p0: PoolState, a1: u64, b1: u64, a2: u64, b2: u64)
    requires
        deposit_spec(p0, a1, b1) is Ok,
        deposit_spec(deposit_spec(p0, a1, b1)->Ok_0.0, a2, b2) is Ok,
    ensures
        ({
            let (p1, s1) = deposit_spec(p0, a1, b1)->Ok_0;
            let (p2, s2) = deposit_spec(p1, a2, b2)->Ok_0;
            &&& p1.amount_a == p0.amount_a + a1
            &&& p1.amount_b == p0.amount_b + b1
            &&& p1.total_supply == p0.total_supply + s1
            &&& p2.amount_a == p0.amount_a + a1 + a2
            &&& p2.amount_b == p0.amount_b + b1 + b2
            &&& p2.total_supply == p0.total_supply + s1 + s2
            &&& s2 == pricing_spec(p1, a2, b2)->Ok_0
        }),
{
}

/// Settle one deposit against the pool record, given the outcomes of the
/// two asset transfers and of the share issuance, which the surrounding
/// ledger performs.  Settlement is all-or-nothing: on any failure, declared
/// reserves, supply and every identifier are unchanged and an error is
/// returned; on success the counters grow exactly by the declared amounts
/// and the computed shares.
pub fn deposit_liquidity(
    pool: &mut PoolState,
    amount_a: u64,
    amount_b: u64,
    transfer_a_ok: bool,
    transfer_b_ok: bool,
    issue_ok: bool,
) -> (r: Result<u64, ErrorCode>)
    ensures
        match settle_spec(
            *old(pool),
            amount_a,
            amount_b,
            transfer_a_ok,
            transfer_b_ok,
            issue_ok,
        ) {
            Ok(outcome) => r == Ok::<u64, ErrorCode>(outcome.1) && *final(pool) == outcome.0,
            Err(e) => r == Err::<u64, ErrorCode>(e) && *final(pool) == *old(pool),
        },
        !(transfer_a_ok && transfer_b_ok && issue_ok) ==> r is Err && *final(pool) == *old(pool),
        r is Err ==> *final(pool) == *old(pool),
        old(pool).counters_consistent() && r is Ok ==> final(pool).counters_consistent(),
{
    if !pool.is_initialized {
        return Err(ErrorCode::PoolNotInitialized);
    }
    if !transfer_a_ok || !transfer_b_ok {
        return Err(ErrorCode::TransferFailed);
    }
    let snapshot: PoolState = *pool;
    let shares: u64 = match deposit_prepare(&snapshot, amount_a, amount_b) {
        Ok(shares) => shares,
        Err(e) => {
            return Err(e);
        },
    };
    if !issue_ok {
        return Err(ErrorCode::TransferFailed);
    }
    let committed = deposit_commit(pool, amount_a, amount_b, shares);
    match committed {
        Ok(_) => {
            proof {
                if old(pool).counters_consistent() {
                    lemma_deposit_preserves_consistency(*old(pool), amount_a, amount_b);
                }
            }
            Ok(shares)
        },
        Err(e) => Err(e),
    }
}

} // verus!

