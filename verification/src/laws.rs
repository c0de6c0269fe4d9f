//! System-wide laws of the ledger, proved over the transition functions:
//! the accounting invariant holds in every reachable state, the lifetime
//! counters are monotone, authorization gates the governing operations,
//! and the pause flag gates the supply-changing ones.

use vstd::prelude::*;

use crate::ops::burn_transition;
use crate::ops::mint_transition;
use crate::ops::pause_transition;
use crate::ops::transfer_authority_transition;
use crate::ops::unpause_transition;
use crate::state::AccountId;
use crate::state::ErrorCode;
use crate::state::Reserve;
use crate::state::MAX_MINT_PER_CALL;

verus! {

/// One request against an existing reserve record, with the identity that
/// signed it where the operation is authority-gated.
pub enum LedgerOp {
    Mint { signer: AccountId, amount: u64 },
    Burn { amount: u64 },
    Pause { signer: AccountId },
    Unpause { signer: AccountId },
    TransferAuthority { signer: AccountId, new_authority: AccountId },
}

/// The outcome of one request against the record `pre`.
pub open spec fn op_transition(pre: Reserve, op: LedgerOp) -> Result<Reserve, ErrorCode> {
    match op {
        LedgerOp::Mint { signer, amount } => mint_transition(pre, signer, amount),
        LedgerOp::Burn { amount } => burn_transition(pre, amount),
        LedgerOp::Pause { signer } => pause_transition(pre, signer),
        LedgerOp::Unpause { signer } => unpause_transition(pre, signer),
        LedgerOp::TransferAuthority { signer, new_authority } => transfer_authority_transition(
            pre,
            signer,
            new_authority,
        ),
    }
}

/// The record after one request: the new record on success, the old one
/// unchanged on any error (each operation aborts before mutating).
pub open spec fn op_state(pre: Reserve, op: LedgerOp) -> Reserve {
    match op_transition(pre, op) {
        Ok(post) => post,
        Err(_) => pre,
    }
}

/// The record after a whole sequence of requests, applied in order.
pub open spec fn run_ops(pre: Reserve, ops: Seq<LedgerOp>) -> Reserve
    decreases ops.len(),
{
    if ops.len() == 0 {
        pre
    } else {
        op_state(run_ops(pre, ops.drop_last()), ops.last())
    }
}

/// One request keeps the accounting invariant: supply equals lifetime
/// mints minus lifetime burns, and the backing reserve equals the supply.
pub proof fn lemma_op_preserves_well_formed(pre: Reserve, op: LedgerOp)
    requires
        pre.well_formed(),
    ensures
        op_state(pre, op).well_formed(),
{
}

/// One request never lowers the lifetime mint and burn counters.
pub proof fn lemma_op_counters_monotonic(pre: Reserve, op: LedgerOp)
    ensures
        op_state(pre, op).total_minted >= pre.total_minted,
        op_state(pre, op).total_burned >= pre.total_burned,
{
}

/// Every state reachable from a well-formed record — in particular from a
/// freshly initialized one — satisfies the accounting invariant:
/// `total_supply == total_minted - total_burned` and
/// `brl_reserve == total_supply`, whatever sequence of requests ran and
/// whether each succeeded or failed.
pub proof fn lemma_reachable_states_well_formed(pre: Reserve, ops: Seq<LedgerOp>)
    requires
        pre.well_formed(),
    ensures
        run_ops(pre, ops).well_formed(),
    decreases ops.len(),
{
    if ops.len() > 0 {
        lemma_reachable_states_well_formed(pre, ops.drop_last());
        lemma_op_preserves_well_formed(run_ops(pre, ops.drop_last()), ops.last());
    }
}

/// The lifetime counters never decrease across any sequence of requests,
/// from any starting record.
pub proof fn lemma_lifetime_counters_monotonic(pre: Reserve, ops: Seq<LedgerOp>)
    ensures
        run_ops(pre, ops).total_minted >= pre.total_minted,
        run_ops(pre, ops).total_burned >= pre.total_burned,
    decreases ops.len(),
{
    if ops.len() > 0 {
        lemma_lifetime_counters_monotonic(pre, ops.drop_last());
        lemma_op_counters_monotonic(run_ops(pre, ops.drop_last()), ops.last());
    }
}

/// A signer other than the current authority is refused with
/// `Unauthorized` by mint, pause, unpause, and authority transfer, on
/// every record and every amount.
pub proof fn lemma_only_authority_governs(
    pre: Reserve,
    signer: AccountId,
    amount: u64,
    new_authority: AccountId,
)
    requires
        signer != pre.authority,
    ensures
        mint_transition(pre, signer, amount) == Err::<Reserve, ErrorCode>(ErrorCode::Unauthorized),
        pause_transition(pre, signer) == Err::<Reserve, ErrorCode>(ErrorCode::Unauthorized),
        unpause_transition(pre, signer) == Err::<Reserve, ErrorCode>(ErrorCode::Unauthorized),
        transfer_authority_transition(pre, signer, new_authority) == Err::<
            Reserve,
            ErrorCode,
        >(ErrorCode::Unauthorized),
{
}

/// Burn needs no authority: on a well-formed, unpaused record it succeeds
/// for any positive amount up to the circulating supply, whoever the
/// current authority is — the check is on the holder's own balance, made
/// by the host.
pub proof fn lemma_burn_is_authority_free(pre: Reserve, amount: u64)
    requires
        pre.well_formed(),
        !pre.is_paused,
        0 < amount <= pre.total_supply,
    ensures
        burn_transition(pre, amount) is Ok,
{
}

/// While the record is paused, a mint by the authority and a burn by
/// anyone fail with `ContractPaused`, while pause, unpause, and authority
/// transfer remain available to the authority; an unpause clears the flag.
pub proof fn lemma_pause_gates_supply_changes(pre: Reserve, amount: u64, new_authority: AccountId)
    requires
        pre.is_paused,
    ensures
        mint_transition(pre, pre.authority, amount) == Err::<
            Reserve,
            ErrorCode,
        >(ErrorCode::ContractPaused),
        burn_transition(pre, amount) == Err::<Reserve, ErrorCode>(ErrorCode::ContractPaused),
        pause_transition(pre, pre.authority) is Ok,
        unpause_transition(pre, pre.authority) matches Ok(post) && !post.is_paused,
        transfer_authority_transition(pre, pre.authority, new_authority) is Ok,
{
}

/// The mint amount boundaries, on any well-formed, unpaused record: zero
/// is refused as `InvalidAmount`; one above the per-call ceiling is
/// refused as `AmountTooLarge`; the ceiling itself is accepted whenever
/// the lifetime mint counter has 64-bit headroom for it.
pub proof fn lemma_mint_amount_boundaries(pre: Reserve)
    requires
        pre.well_formed(),
        !pre.is_paused,
    ensures
        mint_transition(pre, pre.authority, 0) == Err::<Reserve, ErrorCode>(
            ErrorCode::InvalidAmount,
        ),
        mint_transition(pre, pre.authority, (MAX_MINT_PER_CALL + 1) as u64) == Err::<
            Reserve,
            ErrorCode,
        >(ErrorCode::AmountTooLarge),
        pre.total_minted + MAX_MINT_PER_CALL <= u64::MAX ==> mint_transition(
            pre,
            pre.authority,
            MAX_MINT_PER_CALL,
        ) is Ok,
{
}

/// The burn amount boundaries, on any well-formed, unpaused record: an
/// amount above the circulating supply is refused as
/// `InsufficientSupply`; burning exactly the supply succeeds and leaves
/// the supply at zero.
pub proof fn lemma_burn_supply_boundaries(pre: Reserve, amount: u64)
    requires
        pre.well_formed(),
        !pre.is_paused,
    ensures
        amount > pre.total_supply ==> burn_transition(pre, amount) == Err::<
            Reserve,
            ErrorCode,
        >(ErrorCode::InsufficientSupply),
        0 < amount == pre.total_supply ==> (burn_transition(pre, amount) matches Ok(post)
            && post.total_supply == 0),
{
}

} // verus!
