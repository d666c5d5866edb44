//! The pool record: declared reserves, share supply, and the fixed
//! identifiers of the accounts and mints that belong to the pool.

use vstd::prelude::*;

verus! {

/// Identifier of an account, mint or authority in the surrounding ledger.
/// The ledger's own keys are opaque to the accounting core; all it ever does
/// is store and compare them, so a plain integer stands for one here.
pub type AccountId = u64;

/// Everything a pool-creation request supplies: the identifiers to persist,
/// the derivation seeds of the pool's addresses, and the share mint's
/// declared exclusive mint authority, which creation validates against the
/// pool's derived authority.
#[derive(Clone, Copy, Debug, PartialEq, Eq, Structural)]
pub struct InitPoolParams {
    /// Bump seed of the pool record's derived address.
    pub bump_seed: u8,
    /// The pool's derived signing authority.
    pub pool_authority: AccountId,
    /// Bump seed needed to reconstruct the derived authority's signature.
    pub pool_authority_bump_seed: u8,
    /// The pool's holding account for asset A.
    pub token_a: AccountId,
    /// The pool's holding account for asset B.
    pub token_b: AccountId,
    /// The share-token class the pool will mint from.
    pub pool_mint: AccountId,
    /// The exclusive mint authority the share mint declares; creation fails
    /// unless it is exactly the pool's derived authority.
    pub pool_mint_authority: AccountId,
    /// Mint of asset A.
    pub token_a_mint: AccountId,
    /// Mint of asset B.
    pub token_b_mint: AccountId,
}

/// One pool record, created once per unordered pair of asset mints and
/// mutated only by successful deposits.
#[derive(Clone, Copy, Debug, PartialEq, Eq, Structural)]
pub struct PoolState {
    /// Guards against re-creation.
    pub is_initialized: bool,
    /// Bump seed used to derive the pool record's own address.
    pub bump_seed: u8,
    /// The pool's exclusive derived signing authority; the only identity
    /// allowed to authorize share issuance.
    pub pool_authority: AccountId,
    /// Bump seed needed to reconstruct the derived authority's signature.
    pub pool_authority_bump_seed: u8,
    /// The pool's holding account for asset A.
    pub token_a: AccountId,
    /// The pool's holding account for asset B.
    pub token_b: AccountId,
    /// The share-token class minted to depositors.
    pub pool_mint: AccountId,
    /// Mint of asset A.
    pub token_a_mint: AccountId,
    /// Mint of asset B.
    pub token_b_mint: AccountId,
    /// Total outstanding pool shares, mirrored from the share mint.
    pub total_supply: u64,
    /// Declared reserve of asset A.
    pub amount_a: u64,
    /// Declared reserve of asset B.
    pub amount_b: u64,
}

impl PoolState {
    /// The pool is either fully empty or fully seeded: one reserve is zero
    /// exactly when the other is, exactly when no shares are outstanding.
    pub open spec fn counters_consistent(self) -> bool {
        &&& (self.amount_a == 0 <==> self.amount_b == 0)
        &&& (self.amount_b == 0 <==> self.total_supply == 0)
    }

    /// Both reserves are empty, so the next deposit seeds the pool.
    pub open spec fn is_empty(self) -> bool {
        self.amount_a == 0 && self.amount_b == 0
    }

    /// Whether this record holds the given unordered pair of asset mints.
    pub open spec fn has_pair(self, mint_x: AccountId, mint_y: AccountId) -> bool {
        ||| (self.token_a_mint == mint_x && self.token_b_mint == mint_y)
        ||| (self.token_a_mint == mint_y && self.token_b_mint == mint_x)
    }

    /// The identifiers a creation request asked for, with zeroed counters
    /// and the initialized flag set.
    pub open spec fn from_params(params: InitPoolParams) -> PoolState {
        PoolState {
            is_initialized: true,
            bump_seed: params.bump_seed,
            pool_authority: params.pool_authority,
            pool_authority_bump_seed: params.pool_authority_bump_seed,
            token_a: params.token_a,
            token_b: params.token_b,
            pool_mint: params.pool_mint,
            token_a_mint: params.token_a_mint,
            token_b_mint: params.token_b_mint,
            total_supply: 0,
            amount_a: 0,
            amount_b: 0,
        }
    }

    /// Serialized byte size of a pool record in the surrounding ledger:
    /// two one-byte fields and seven identifiers of 32 bytes each.
    pub fn size() -> (r: usize)
        ensures
            r == 226,
    {
        1 + 1 + 32 + 32 + 32 + 32 + 32 + 32 + 32
    }
}

} // verus!
