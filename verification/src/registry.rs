//! The pool registry: an explicit keyed store with one record per unordered
//! pair of asset mints, and the settlement entry point that takes exclusive
//! write access to one record per call.

use vstd::prelude::*;

verus! {

use vstd::pervasive::VecAdditionalExecFns;
use crate::error::ErrorCode;
use crate::settle::{settle_spec, deposit_liquidity};
use crate::state::{AccountId, InitPoolParams, PoolState};

/// The set of all pools, keyed by the unordered pair of asset mints.
pub struct PoolRegistry {
    pools: Vec<PoolState>,
}

impl View for PoolRegistry {
    type V = Seq<PoolState>;

    closed spec fn view(&self) -> Seq<PoolState> {
        self.pools@
    }
}

/// The registry transition of a creation request: a record for an already
/// registered pair is refused, a share mint whose exclusive mint authority
/// is not the pool's derived authority is refused, and otherwise a fresh
/// record with zeroed counters is appended.
pub open spec fn create_pool_spec(pools: Seq<PoolState>, params: InitPoolParams) -> Result<
    Seq<PoolState>,
    ErrorCode,
> {
    if exists|i: int|
        0 <= i < pools.len() && pools[i].has_pair(params.token_a_mint, params.token_b_mint) {
        Err(ErrorCode::AlreadyExists)
    } else if params.pool_mint_authority != params.pool_authority {
        Err(ErrorCode::InvalidShareMint)
    } else {
        Ok(pools.push(PoolState::from_params(params)))
    }
}

/// Creating a pool for the same unordered asset pair twice fails the second
/// time with `AlreadyExists`, in either orientation of the pair, and the
/// record created first still has zero reserves and zero share supply.
pub proof fn lemma_create_pool_rejects_duplicate(
    pools: Seq<PoolState>,
    first: InitPoolParams,
    second: InitPoolParams,
)
    requires
        create_pool_spec(pools, first) is Ok,
        (second.token_a_mint == first.token_a_mint && second.token_b_mint == first.token_b_mint)
            || (second.token_a_mint == first.token_b_mint && second.token_b_mint
            == first.token_a_mint),
    ensures
        create_pool_spec(create_pool_spec(pools, first)->Ok_0, second) == Err::<
            Seq<PoolState>,
            ErrorCode,
        >(ErrorCode::AlreadyExists),
        create_pool_spec(pools, first)->Ok_0[pools.len() as int].amount_a == 0,
        create_pool_spec(pools, first)->Ok_0[pools.len() as int].amount_b == 0,
        create_pool_spec(pools, first)->Ok_0[pools.len() as int].total_supply == 0,
{
    let created = create_pool_spec(pools, first)->Ok_0;
    assert(created[pools.len() as int] == PoolState::from_params(first));
    assert(created[pools.len() as int].has_pair(second.token_a_mint, second.token_b_mint));
}

impl PoolRegistry {
    /// No two records hold the same unordered pair of asset mints, and every
    /// record is initialized.
    pub open spec fn wf(self) -> bool {
        &&& forall|i: int, j: int|
            0 <= i < j < self@.len() ==> !self@[j].has_pair(
                self@[i].token_a_mint,
                self@[i].token_b_mint,
            )
        &&& forall|i: int| 0 <= i < self@.len() ==> self@[i].is_initialized
    }

    /// Whether some record already holds the unordered pair `{x, y}`.
    pub open spec fn contains_pair(self, mint_x: AccountId, mint_y: AccountId) -> bool {
        exists|i: int| 0 <= i < self@.len() && self@[i].has_pair(mint_x, mint_y)
    }

    /// An empty registry.
    pub fn new() -> (r: PoolRegistry)
        ensures
            r@ == Seq::<PoolState>::empty(),
            r.wf(),
    {
        PoolRegistry { pools: Vec::new() }
    }

    /// Number of registered pools.
    pub fn len(&self) -> (r: usize)
        ensures
            r == self@.len(),
    {
        self.pools.len()
    }

    /// The record behind a pool handle.
    pub fn pool(&self, handle: usize) -> (r: &PoolState)
        requires
            handle < self@.len(),
        ensures
            *r == self@[handle as int],
    {
        &self.pools[handle]
    }

    /// Handle of the first record holding the unordered pair `{x, y}`, if any.
    pub fn find_pool(&self, mint_x: AccountId, mint_y: AccountId) -> (r: Option<usize>)
        ensures
            match r {
                Some(handle) => handle < self@.len() && self@[handle as int].has_pair(
                    mint_x,
                    mint_y,
                ) && (forall|j: int| 0 <= j < handle ==> !self@[j].has_pair(mint_x, mint_y)),
                None => !self.contains_pair(mint_x, mint_y),
            },
    {
        let n = self.pools.len();
        let mut idx: usize = 0;
        while idx < n
            invariant
                n == self@.len(),
                idx <= n,
                forall|j: int| 0 <= j < idx ==> !self@[j].has_pair(mint_x, mint_y),
            decreases n - idx,
        {
            let record = &self.pools[idx];
            if (record.token_a_mint == mint_x && record.token_b_mint == mint_y) || (
            record.token_a_mint == mint_y && record.token_b_mint == mint_x) {
                return Some(idx);
            }
            idx = idx + 1;
        }
        None
    }

    /// Create the pool for a pair of asset mints: refused if the pair is
    /// already registered or the share mint is not exclusively mintable by
    /// the pool's derived authority; otherwise the new record starts with
    /// zero reserves and zero share supply, and its handle is returned.
    pub fn initialize_pool(&mut self, params: InitPoolParams) -> (r: Result<usize, ErrorCode>)
        requires
            old(self).wf(),
        ensures
            final(self).wf(),
            match create_pool_spec(old(self)@, params) {
                Ok(updated) => r == Ok::<usize, ErrorCode>((old(self)@.len() as usize))
                    && final(self)@ == updated,
                Err(e) => r == Err::<usize, ErrorCode>(e) && final(self)@ == old(self)@,
            },
    {
        match self.find_pool(params.token_a_mint, params.token_b_mint) {
            Some(_) => Err(ErrorCode::AlreadyExists),
            None => {
                if params.pool_mint_authority != params.pool_authority {
                    return Err(ErrorCode::InvalidShareMint);
                }
                let handle = self.pools.len();
                let record = PoolState {
                    is_initialized: true,
                    bump_seed: params.bump_seed,
                    pool_authority: params.pool_authority,
                    pool_authority_bump_seed: params.pool_authority_bump_seed,
                    token_a: params.token_a,
                    token_b: params.token_b,
                    pool_mint: params.pool_mint,
                    token_a_mint: params.token_a_mint,
                    token_b_mint: params.token_b_mint,
                    total_supply: 0,
                    amount_a: 0,
                    amount_b: 0,
                };
                self.pools.push(record);
                proof {
                    assert(self@ == old(self)@.push(PoolState::from_params(params)));
                    assert forall|i: int, j: int| 0 <= i < j < self@.len() implies !self@[j].has_pair(
                        self@[i].token_a_mint,
                        self@[i].token_b_mint,
                    ) by {
                        if j == old(self)@.len() {
                            assert(!old(self)@[i].has_pair(
                                params.token_a_mint,
                                params.token_b_mint,
                            ));
                        }
                    }
                }
                Ok(handle)
            },
        }
    }

    /// Settle one deposit against the pool behind `handle`, given the
    /// outcomes of the two asset transfers and of the share issuance.  The
    /// registry's records other than this one are untouched; on any failure
    /// this one is untouched too.
    pub fn deposit(
        &mut self,
        handle: usize,
        amount_a: u64,
        amount_b: u64,
        transfer_a_ok: bool,
        transfer_b_ok: bool,
        issue_ok: bool,
    ) -> (r: Result<u64, ErrorCode>)
        requires
            old(self).wf(),
            handle < old(self)@.len(),
        ensures
            final(self).wf(),
            match settle_spec(
                old(self)@[handle as int],
                amount_a,
                amount_b,
                transfer_a_ok,
                transfer_b_ok,
                issue_ok,
            ) {
                Ok(outcome) => r == Ok::<u64, ErrorCode>(outcome.1) && final(self)@ == old(
                    self,
                )@.update(handle as int, outcome.0),
                Err(e) => r == Err::<u64, ErrorCode>(e) && final(self)@ == old(self)@,
            },
    {
        let mut record: PoolState = self.pools[handle];
        let outcome = deposit_liquidity(
            &mut record,
            amount_a,
            amount_b,
            transfer_a_ok,
            transfer_b_ok,
            issue_ok,
        );
        match outcome {
            Ok(shares) => {
                self.pools.set(handle, record);
                proof {
                    assert(self@ =~= old(self)@.update(handle as int, record));
                    assert forall|x: int| 0 <= x < self@.len() implies self@[x].token_a_mint == old(
                        self,
                    )@[x].token_a_mint && self@[x].token_b_mint == old(self)@[x].token_b_mint
                        && self@[x].is_initialized == old(self)@[x].is_initialized by {}
                    assert forall|i: int, j: int| 0 <= i < j < self@.len() implies !self@[j].has_pair(
                        self@[i].token_a_mint,
                        self@[i].token_b_mint,
                    ) by {
                        assert(!old(self)@[j].has_pair(
                            old(self)@[i].token_a_mint,
                            old(self)@[i].token_b_mint,
                        ));
                    }
                }
                Ok(shares)
            },
            Err(e) => Err(e),
        }
    }
}

} // verus!
