//! Accounting core of a two-asset liquidity pool.
//!
//! A pool holds reserves of two assets and issues proportional pool shares
//! to depositors.  The first deposit seeds the share supply with the
//! geometric mean of the two amounts; later deposits are priced against the
//! tracked reserves and always settle at the less favourable of the two
//! implied ratios.  All arithmetic is checked: a computation that would
//! overflow or truncate fails the whole deposit instead.

pub mod error;
pub mod instruction;
pub mod math;
pub mod registry;
pub mod settle;
pub mod state;

pub use crate::error::ErrorCode;
pub use crate::math::sqrt;
pub use crate::registry::PoolRegistry;
pub use crate::settle::{deposit_commit, deposit_liquidity, deposit_prepare};
pub use crate::state::{AccountId, InitPoolParams, PoolState};

use vstd::prelude::*;

verus! {

} // verus!
