//! The six ledger operations, each proved against a mathematical
//! transition function on the reserve record.
//!
//! Every operation is a total function: it either returns `Ok` and commits
//! the transition, or returns the first applicable error and leaves the
//! record untouched. The host is expected to run each call, together with
//! the matching token-service call, as one atomic transaction.

use vstd::prelude::*;

use crate::state::AccountId;
use crate::state::ErrorCode;
use crate::state::Reserve;
use crate::state::MAX_MINT_PER_CALL;

verus! {

/// The freshly created reserve record: all counters zero, unpaused, owned
/// by `authority`.
pub open spec fn initialized(authority: AccountId, bump: u8) -> Reserve {
    Reserve {
        authority,
        total_supply: 0,
        brl_reserve: 0,
        total_minted: 0,
        total_burned: 0,
        is_paused: false,
        bump,
    }
}

/// What a mint does to the record, or why it is refused. The checks apply
/// in order: the caller's authority, then the pause flag, then the amount
/// bounds, then 64-bit headroom on each counter.
pub open spec fn mint_transition(pre: Reserve, signer: AccountId, amount: u64) -> Result<
    Reserve,
    ErrorCode,
> {
    if signer != pre.authority {
        Err(ErrorCode::Unauthorized)
    } else if pre.is_paused {
        Err(ErrorCode::ContractPaused)
    } else if amount == 0 {
        Err(ErrorCode::InvalidAmount)
    } else if amount > MAX_MINT_PER_CALL {
        Err(ErrorCode::AmountTooLarge)
    } else if pre.total_supply + amount > u64::MAX || pre.brl_reserve + amount > u64::MAX
        || pre.total_minted + amount > u64::MAX {
        Err(ErrorCode::Overflow)
    } else {
        Ok(
            Reserve {
                total_supply: (pre.total_supply + amount) as u64,
                brl_reserve: (pre.brl_reserve + amount) as u64,
                total_minted: (pre.total_minted + amount) as u64,
                ..pre
            },
        )
    }
}

/// What a burn does to the record, or why it is refused. Burn is
/// self-service — it carries no authority check; the host verifies the
/// holder's own signature over their token account instead.
pub open spec fn burn_transition(pre: Reserve, amount: u64) -> Result<Reserve, ErrorCode> {
    if pre.is_paused {
        Err(ErrorCode::ContractPaused)
    } else if amount == 0 {
        Err(ErrorCode::InvalidAmount)
    } else if amount > pre.total_supply {
        Err(ErrorCode::InsufficientSupply)
    } else if pre.brl_reserve < amount {
        Err(ErrorCode::Underflow)
    } else if pre.total_burned + amount > u64::MAX {
        Err(ErrorCode::Overflow)
    } else {
        Ok(
            Reserve {
                total_supply: (pre.total_supply - amount) as u64,
                brl_reserve: (pre.brl_reserve - amount) as u64,
                total_burned: (pre.total_burned + amount) as u64,
                ..pre
            },
        )
    }
}

/// What a pause does to the record: sets the flag, idempotently.
pub open spec fn pause_transition(pre: Reserve, signer: AccountId) -> Result<Reserve, ErrorCode> {
    if signer != pre.authority {
        Err(ErrorCode::Unauthorized)
    } else {
        Ok(Reserve { is_paused: true, ..pre })
    }
}

/// What an unpause does to the record: clears the flag, idempotently.
pub open spec fn unpause_transition(pre: Reserve, signer: AccountId) -> Result<Reserve, ErrorCode> {
    if signer != pre.authority {
        Err(ErrorCode::Unauthorized)
    } else {
        Ok(Reserve { is_paused: false, ..pre })
    }
}

/// What an authority transfer does to the record: replaces the authority
/// unconditionally, with no acceptance step by the new one.
pub open spec fn transfer_authority_transition(
    pre: Reserve,
    signer: AccountId,
    new_authority: AccountId,
) -> Result<Reserve, ErrorCode> {
    if signer != pre.authority {
        Err(ErrorCode::Unauthorized)
    } else {
        Ok(Reserve { authority: new_authority, ..pre })
    }
}

/// Creates the reserve record for a new token deployment: all counters
/// zero, unpaused, with `authority` as the one identity allowed to mint.
///
/// The host stores the record at an address derived from a fixed label and
/// `bump`, refuses to create it twice, and configures the external mint
/// object so that only this record can authorize new tokens.
pub fn initialize(authority: AccountId, bump: u8) -> (r: Reserve)
    ensures
        r == initialized(authority, bump),
        r.well_formed(),
{
    Reserve {
        authority,
        total_supply: 0,
        brl_reserve: 0,
        total_minted: 0,
        total_burned: 0,
        is_paused: false,
        bump,
    }
}

/// Mints `amount` minor units against a confirmed off-chain deposit,
/// raising the supply, the backing reserve, and the lifetime mint counter
/// together.
///
/// Only the current authority may mint; the reserve must not be paused and
/// the amount must be positive and at most [`MAX_MINT_PER_CALL`]. On any
/// error the record is left untouched. `deposit_proof` is an opaque audit
/// reference recorded by the host; it is not validated here and replay of
/// the same reference is not prevented.
pub fn mint_real_digital(
    reserve: &mut Reserve,
    signer: AccountId,
    amount: u64,
    deposit_proof: String,
) -> (r: Result<(), ErrorCode>)
    ensures
        match mint_transition(*old(reserve), signer, amount) {
            Ok(post) => r is Ok && *final(reserve) == post,
            Err(e) => r == Err::<(), ErrorCode>(e) && *final(reserve) == *old(reserve),
        },
        old(reserve).well_formed() ==> final(reserve).well_formed(),
        final(reserve).total_minted >= old(reserve).total_minted,
        final(reserve).total_burned == old(reserve).total_burned,
        final(reserve).authority == old(reserve).authority,
        final(reserve).is_paused == old(reserve).is_paused,
{
    let _ = deposit_proof;
    if signer != reserve.authority {
        return Err(ErrorCode::Unauthorized);
    }
    if reserve.is_paused {
        return Err(ErrorCode::ContractPaused);
    }
    if amount == 0 {
        return Err(ErrorCode::InvalidAmount);
    }
    if amount > MAX_MINT_PER_CALL {
        return Err(ErrorCode::AmountTooLarge);
    }
    let new_supply = match reserve.total_supply.checked_add(amount) {
        Some(v) => v,
        None => {
            return Err(ErrorCode::Overflow);
        },
    };
    let new_backing = match reserve.brl_reserve.checked_add(amount) {
        Some(v) => v,
        None => {
            return Err(ErrorCode::Overflow);
        },
    };
    let new_minted = match reserve.total_minted.checked_add(amount) {
        Some(v) => v,
        None => {
            return Err(ErrorCode::Overflow);
        },
    };
    reserve.total_supply = new_supply;
    reserve.brl_reserve = new_backing;
    reserve.total_minted = new_minted;
    Ok(())
}

/// Burns `amount` minor units for an off-chain withdrawal, lowering the
/// supply and the backing reserve and raising the lifetime burn counter.
///
/// Burn is self-service: any holder may burn from their own balance, so no
/// authority check is made here — the host checks the holder's signature
/// over the token account instead. The reserve must not be paused, the
/// amount must be positive and at most the circulating supply, and on any
/// error the record is left untouched. `withdrawal_address` is an opaque
/// audit reference recorded by the host; it is not validated here.
pub fn burn_real_digital(
    reserve: &mut Reserve,
    amount: u64,
    withdrawal_address: String,
) -> (r: Result<(), ErrorCode>)
    ensures
        match burn_transition(*old(reserve), amount) {
            Ok(post) => r is Ok && *final(reserve) == post,
            Err(e) => r == Err::<(), ErrorCode>(e) && *final(reserve) == *old(reserve),
        },
        old(reserve).well_formed() ==> final(reserve).well_formed(),
        final(reserve).total_minted == old(reserve).total_minted,
        final(reserve).total_burned >= old(reserve).total_burned,
        final(reserve).authority == old(reserve).authority,
        final(reserve).is_paused == old(reserve).is_paused,
{
    let _ = withdrawal_address;
    if reserve.is_paused {
        return Err(ErrorCode::ContractPaused);
    }
    if amount == 0 {
        return Err(ErrorCode::InvalidAmount);
    }
    if amount > reserve.total_supply {
        return Err(ErrorCode::InsufficientSupply);
    }
    let new_supply = match reserve.total_supply.checked_sub(amount) {
        Some(v) => v,
        None => {
            return Err(ErrorCode::Underflow);
        },
    };
    let new_backing = match reserve.brl_reserve.checked_sub(amount) {
        Some(v) => v,
        None => {
            return Err(ErrorCode::Underflow);
        },
    };
    let new_burned = match reserve.total_burned.checked_add(amount) {
        Some(v) => v,
        None => {
            return Err(ErrorCode::Overflow);
        },
    };
    reserve.total_supply = new_supply;
    reserve.brl_reserve = new_backing;
    reserve.total_burned = new_burned;
    Ok(())
}

/// Pauses the reserve: mint and burn are rejected until [`unpause`].
/// Only the current authority may pause; pausing twice is not an error.
pub fn pause(reserve: &mut Reserve, signer: AccountId) -> (r: Result<(), ErrorCode>)
    ensures
        match pause_transition(*old(reserve), signer) {
            Ok(post) => r is Ok && *final(reserve) == post,
            Err(e) => r == Err::<(), ErrorCode>(e) && *final(reserve) == *old(reserve),
        },
        old(reserve).well_formed() ==> final(reserve).well_formed(),
{
    if signer != reserve.authority {
        return Err(ErrorCode::Unauthorized);
    }
    reserve.is_paused = true;
    Ok(())
}

/// Resumes mint and burn after a pause. Only the current authority may
/// unpause; unpausing an active reserve is not an error.
pub fn unpause(reserve: &mut Reserve, signer: AccountId) -> (r: Result<(), ErrorCode>)
    ensures
        match unpause_transition(*old(reserve), signer) {
            Ok(post) => r is Ok && *final(reserve) == post,
            Err(e) => r == Err::<(), ErrorCode>(e) && *final(reserve) == *old(reserve),
        },
        old(reserve).well_formed() ==> final(reserve).well_formed(),
{
    if signer != reserve.authority {
        return Err(ErrorCode::Unauthorized);
    }
    reserve.is_paused = false;
    Ok(())
}

/// Hands control of the reserve to `new_authority`, unconditionally and
/// irrevocably: there is no acceptance step, and the previous authority
/// keeps no rights. Only the current authority may transfer.
pub fn transfer_authority(
    reserve: &mut Reserve,
    signer: AccountId,
    new_authority: AccountId,
) -> (r: Result<(), ErrorCode>)
    ensures
        match transfer_authority_transition(*old(reserve), signer, new_authority) {
            Ok(post) => r is Ok && *final(reserve) == post,
            Err(e) => r == Err::<(), ErrorCode>(e) && *final(reserve) == *old(reserve),
        },
        old(reserve).well_formed() ==> final(reserve).well_formed(),
{
    if signer != reserve.authority {
        return Err(ErrorCode::Unauthorized);
    }
    reserve.authority = new_authority;
    Ok(())
}

} // verus!
