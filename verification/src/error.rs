//! Typed failure modes of pool creation and deposit settlement.

use vstd::prelude::*;

verus! {

/// Everything that can go wrong while creating a pool or settling a deposit.
/// Validation errors are raised before any state change; arithmetic and
/// external-operation errors abort the whole deposit with no partial effect.
#[derive(Clone, Copy, Debug, PartialEq, Eq, Structural)]
pub enum ErrorCode {
    /// A pool for the same unordered asset pair already exists.
    AlreadyExists,
    /// The share mint's exclusive mint authority is not the pool's derived
    /// authority, so the pool could never be the sole issuer of shares.
    InvalidShareMint,
    /// A first deposit with a zero amount on either side would leave the pool
    /// partially seeded, which the pool invariant forbids.
    InvalidInput,
    /// The pool record was never initialized.
    PoolNotInitialized,
    /// An asset transfer or the share issuance failed; nothing was settled.
    TransferFailed,
    /// A checked addition, multiplication or narrowing stepped past its range.
    ArithmeticOverflow,
    /// A proportional price against a zero reserve was requested; this can
    /// only happen if the reserves were mutated behind the registry's back.
    DivisionByZero,
}

} // verus!
