//! A custodial reserve ledger for a fiat-backed digital token.
//!
//! The ledger tracks the circulating supply of a token that is backed 1:1 by
//! off-chain currency deposits. All supply-changing operations are gated by a
//! single authority and by explicit safety checks; the actual movement of
//! token balances is delegated to an external token service run by the host.
//!
//! The crate proves that the reserve accounting invariant — circulating
//! supply equals lifetime mints minus lifetime burns, and the backing
//! reserve tracks the supply exactly — holds in every reachable state, and
//! that the lifetime counters never decrease.

pub mod laws;
pub mod ops;
pub mod state;

pub use ops::burn_real_digital;
pub use ops::initialize;
pub use ops::mint_real_digital;
pub use ops::pause;
pub use ops::transfer_authority;
pub use ops::unpause;
pub use state::AccountId;
pub use state::ErrorCode;
pub use state::Reserve;
pub use state::MAX_MINT_PER_CALL;
