//! The reserve record, the identities that act on it, and the error set.

use vstd::prelude::*;

verus! {

/// Identity of a principal on the host ledger (an account address).
///
/// The ledger only ever compares identities for equality — it never reads
/// any structure out of an address — so an opaque integer id carries
/// everything the logic needs.
#[derive(Clone, Copy, PartialEq, Eq, Structural, Debug)]
pub struct AccountId {
    pub id: u64,
}

/// Per-call ceiling on a single mint, in minor units of the token
/// (1,000,000 whole units at two decimals).
pub const MAX_MINT_PER_CALL: u64 = 100_000_000;

/// The singleton reserve record: supply counters, backing amount, pause
/// flag, and the current authority.
#[derive(Clone, Copy, PartialEq, Eq, Structural, Debug)]
pub struct Reserve {
    /// The one identity permitted to mint and to change pause or
    /// authority state.
    pub authority: AccountId,
    /// Tokens currently in circulation, in minor units.
    pub total_supply: u64,
    /// Backing currency held in reserve, in minor units; tracks
    /// `total_supply` exactly under 1:1 backing.
    pub brl_reserve: u64,
    /// Lifetime count of tokens ever minted; never decreases.
    pub total_minted: u64,
    /// Lifetime count of tokens ever burned; never decreases.
    pub total_burned: u64,
    /// While set, mint and burn are rejected; the authority-gated
    /// operations remain available.
    pub is_paused: bool,
    /// Salt used by the host to re-derive the record's address; carries no
    /// business meaning.
    pub bump: u8,
}

impl Reserve {
    /// The reserve accounting invariant: the circulating supply is exactly
    /// the lifetime mints minus the lifetime burns, and the backing
    /// reserve equals the supply.
    pub open spec fn well_formed(self) -> bool {
        &&& self.total_burned <= self.total_minted
        &&& self.total_supply == self.total_minted - self.total_burned
        &&& self.brl_reserve == self.total_supply
    }
}

/// Typed failure of a ledger operation.
///
/// `AlreadyInitialized` and `ExternalServiceFailure` are reported by the
/// hosting layer (double creation of the record, and a failed token-service
/// call); the operations in this crate return the other variants.
#[derive(Clone, Copy, PartialEq, Eq, Structural, Debug)]
pub enum ErrorCode {
    /// Mint or burn attempted while the reserve is paused.
    ContractPaused,
    /// The amount is zero.
    InvalidAmount,
    /// A mint amount exceeds the fixed per-call ceiling.
    AmountTooLarge,
    /// A burn amount exceeds the current circulating supply.
    InsufficientSupply,
    /// A checked addition would exceed the 64-bit counter range.
    Overflow,
    /// A checked subtraction would go below zero.
    Underflow,
    /// The caller is not the current authority.
    Unauthorized,
    /// A reserve record already exists at the derived address.
    AlreadyInitialized,
    /// The external token service refused a mint or burn.
    ExternalServiceFailure,
}

} // verus!
