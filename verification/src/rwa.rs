//! Real-world-asset records: descriptive entries scoped to an estate,
//! soft-deleted rather than removed, and reassignable to a beneficiary
//! once the estate is claimable.
use vstd::prelude::*;

use crate::account::AccountId;
use crate::claim::ClaimRecord;
use crate::errors::EstateError;
use crate::estate::Estate;
use crate::MAX_TIMESTAMP;

verus! {

/// One registered real-world asset. `rwa_number` is its sequence number
/// within its estate; `is_active` is the soft-delete flag, kept so that
/// historical claims can still resolve the asset; `current_owner` moves to
/// a beneficiary on a post-claim transfer.
#[derive(Clone, Debug)]
pub struct RWA {
    pub estate: AccountId,
    pub rwa_type: String,
    pub name: String,
    pub description: String,
    pub value: String,
    pub metadata_uri: String,
    pub created_at: i64,
    pub is_active: bool,
    pub rwa_number: u32,
    pub current_owner: AccountId,
}

/// A point-in-time snapshot of an estate's holdings, produced on demand
/// for any caller.
#[derive(Clone, Copy, Debug)]
pub struct AssetSummary {
    pub estate: AccountId,
    pub scan_time: i64,
    pub sol_balance: u64,
    pub total_rwas: u32,
    pub active_rwas: u32,
}

/// Whether registering an asset may go through: the estate is mutable by
/// its owner.
pub open spec fn create_rwa_ok(e: Estate, caller: AccountId) -> bool {
    &&& !e.is_locked
    &&& !e.is_claimable
    &&& caller == e.owner
}

/// The refusal a failing registration reports.
pub open spec fn create_rwa_err(e: Estate, caller: AccountId) -> EstateError {
    if e.is_locked {
        EstateError::EstateLocked
    } else if e.is_claimable {
        EstateError::EstateClaimable
    } else {
        EstateError::UnauthorizedAccess
    }
}

/// Registers a real-world asset with the estate: the record takes the
/// estate's next asset number, starts active and owned by the estate's
/// owner, and the estate's asset count moves up by one.
pub fn create_rwa(
    estate: &mut Estate,
    caller: AccountId,
    rwa_type: String,
    name: String,
    description: String,
    value: String,
    metadata_uri: String,
    now: i64,
) -> (r: Result<RWA, EstateError>)
    requires
        old(estate).wf(),
        0 <= now <= MAX_TIMESTAMP,
        old(estate).total_rwas < u32::MAX,
    ensures
        final(estate).wf(),
        r is Ok <==> create_rwa_ok(*old(estate), caller),
        r matches Ok(rwa) ==> {
            &&& rwa.estate == old(estate).estate_id
            &&& rwa.rwa_type == rwa_type
            &&& rwa.name == name
            &&& rwa.description == description
            &&& rwa.value == value
            &&& rwa.metadata_uri == metadata_uri
            &&& rwa.created_at == now
            &&& rwa.is_active
            &&& rwa.rwa_number == old(estate).total_rwas
            &&& rwa.current_owner == old(estate).owner
            &&& *final(estate) == (Estate {
                total_rwas: (old(estate).total_rwas + 1) as u32,
                ..*old(estate)
            })
        },
        !create_rwa_ok(*old(estate), caller)
            ==> r == Err::<RWA, EstateError>(create_rwa_err(*old(estate), caller))
                && *final(estate) == *old(estate),
{
    if estate.is_locked {
        return Err(EstateError::EstateLocked);
    }
    if estate.is_claimable {
        return Err(EstateError::EstateClaimable);
    }
    if caller != estate.owner {
        return Err(EstateError::UnauthorizedAccess);
    }
    let rwa = RWA {
        estate: estate.estate_id,
        rwa_type,
        name,
        description,
        value,
        metadata_uri,
        created_at: now,
        is_active: true,
        rwa_number: estate.total_rwas,
        current_owner: estate.owner,
    };
    estate.total_rwas = estate.total_rwas + 1;
    Ok(rwa)
}

/// Whether soft-deleting an asset may go through: the estate is mutable by
/// its owner, the record belongs to this estate and is still active.
pub open spec fn delete_rwa_ok(e: Estate, rwa: RWA, caller: AccountId) -> bool {
    &&& !e.is_locked
    &&& !e.is_claimable
    &&& caller == e.owner
    &&& rwa.estate == e.estate_id
    &&& rwa.is_active
}

/// The refusal a failing soft-delete reports.
pub open spec fn delete_rwa_err(e: Estate, rwa: RWA, caller: AccountId) -> EstateError {
    if e.is_locked {
        EstateError::EstateLocked
    } else if e.is_claimable {
        EstateError::EstateClaimable
    } else if caller != e.owner {
        EstateError::UnauthorizedAccess
    } else if rwa.estate != e.estate_id {
        EstateError::UnauthorizedAccess
    } else {
        EstateError::RWAAlreadyDeleted
    }
}

/// Soft-deletes an asset record: it is only flagged inactive, never
/// removed, so claims that already reference it keep resolving.
pub fn delete_rwa(estate: &Estate, rwa: &mut RWA, caller: AccountId) -> (r: Result<
    (),
    EstateError,
>)
    requires
        estate.wf(),
    ensures
        r is Ok <==> delete_rwa_ok(*estate, *old(rwa), caller),
        delete_rwa_ok(*estate, *old(rwa), caller)
            ==> *final(rwa) == (RWA { is_active: false, ..*old(rwa) }),
        !delete_rwa_ok(*estate, *old(rwa), caller)
            ==> r == Err::<(), EstateError>(delete_rwa_err(*estate, *old(rwa), caller))
                && *final(rwa) == *old(rwa),
{
    if estate.is_locked {
        return Err(EstateError::EstateLocked);
    }
    if estate.is_claimable {
        return Err(EstateError::EstateClaimable);
    }
    if caller != estate.owner {
        return Err(EstateError::UnauthorizedAccess);
    }
    if rwa.estate != estate.estate_id {
        return Err(EstateError::UnauthorizedAccess);
    }
    if !rwa.is_active {
        return Err(EstateError::RWAAlreadyDeleted);
    }
    rwa.is_active = false;
    Ok(())
}

/// Snapshots an estate's holdings for any caller: the native balance the
/// host reads and the asset count the estate tracks. Counting which of the
/// records are still active is left to the host's indexer, so the snapshot
/// starts that tally at zero.
pub fn scan_estate_assets(estate: &Estate, sol_balance: u64, now: i64) -> (summary: AssetSummary)
    requires
        0 <= now <= MAX_TIMESTAMP,
    ensures
        summary.estate == estate.estate_id,
        summary.scan_time == now,
        summary.sol_balance == sol_balance,
        summary.total_rwas == estate.total_rwas,
        summary.active_rwas == 0,
{
    AssetSummary {
        estate: estate.estate_id,
        scan_time: now,
        sol_balance,
        total_rwas: estate.total_rwas,
        active_rwas: 0,
    }
}

/// Whether reassigning an asset to a beneficiary may go through: the
/// estate is claimable, the claim record proves the caller already claimed
/// their inheritance share there, and the named asset belongs to the
/// estate and is active.
pub open spec fn transfer_rwa_ok(
    e: Estate,
    rwa: RWA,
    rec: ClaimRecord,
    caller: AccountId,
    rwa_number: u32,
) -> bool {
    &&& rec.beneficiary == caller
    &&& e.is_claimable
    &&& rec.estate == e.estate_id
    &&& rwa.estate == e.estate_id
    &&& rwa.rwa_number == rwa_number
    &&& rwa.is_active
}

/// The refusal a failing reassignment reports.
pub open spec fn transfer_rwa_err(
    e: Estate,
    rwa: RWA,
    rec: ClaimRecord,
    caller: AccountId,
    rwa_number: u32,
) -> EstateError {
    if rec.beneficiary != caller {
        EstateError::UnauthorizedBeneficiary
    } else if !e.is_claimable {
        EstateError::NotClaimable
    } else if rec.estate != e.estate_id {
        EstateError::InvalidClaimRecord
    } else if rwa.estate != e.estate_id {
        EstateError::InvalidRWA
    } else if rwa.rwa_number != rwa_number {
        EstateError::InvalidRWA
    } else {
        EstateError::RWAAlreadyDeleted
    }
}

/// Reassigns an asset record to a beneficiary who has claimed their
/// inheritance share: pure bookkeeping, no balance moves.
pub fn transfer_rwa_ownership(
    estate: &Estate,
    rwa: &mut RWA,
    claim_record: &ClaimRecord,
    caller: AccountId,
    rwa_number: u32,
) -> (r: Result<(), EstateError>)
    requires
        estate.wf(),
    ensures
        r is Ok <==> transfer_rwa_ok(*estate, *old(rwa), *claim_record, caller, rwa_number),
        transfer_rwa_ok(*estate, *old(rwa), *claim_record, caller, rwa_number)
            ==> *final(rwa) == (RWA { current_owner: caller, ..*old(rwa) }),
        !transfer_rwa_ok(*estate, *old(rwa), *claim_record, caller, rwa_number)
            ==> r == Err::<(), EstateError>(
                transfer_rwa_err(*estate, *old(rwa), *claim_record, caller, rwa_number),
            ) && *final(rwa) == *old(rwa),
{
    if claim_record.beneficiary != caller {
        return Err(EstateError::UnauthorizedBeneficiary);
    }
    if !estate.is_claimable {
        return Err(EstateError::NotClaimable);
    }
    if claim_record.estate != estate.estate_id {
        return Err(EstateError::InvalidClaimRecord);
    }
    if rwa.estate != estate.estate_id {
        return Err(EstateError::InvalidRWA);
    }
    if rwa.rwa_number != rwa_number {
        return Err(EstateError::InvalidRWA);
    }
    if !rwa.is_active {
        return Err(EstateError::RWAAlreadyDeleted);
    }
    rwa.current_owner = caller;
    Ok(())
}

} // verus!
