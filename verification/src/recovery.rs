//! The recovery subsystem: a time-locked owner replacement for estates
//! whose owner is lost even to the beneficiaries. An administrator may
//! initiate it only after the estate has sat claimable and unclaimed for a
//! dwell period, and execute it only after a further delay.
use vstd::prelude::*;

use crate::account::AccountId;
use crate::beneficiary::Beneficiary;
use crate::errors::EstateError;
use crate::estate::Estate;
use crate::{MAX_TIMESTAMP, RECOVERY_DELAY, RECOVERY_DWELL_PERIOD};

verus! {

/// One recovery attempt. `execution_time` is fixed at initiation; once
/// `is_executed` is set the record is terminal and can never run again.
///
/// The host's keyed storage holds at most one recovery record per estate,
/// so re-initiating while one is pending is refused by the storage layer,
/// not by the rules here.
#[derive(Clone, Debug)]
pub struct Recovery {
    pub estate: AccountId,
    pub initiator: AccountId,
    pub initiation_time: i64,
    pub execution_time: i64,
    pub reason: String,
    pub is_executed: bool,
}

/// Whether starting a recovery may go through: the estate is claimable and
/// has been so, unclaimed, for at least the dwell period beyond the moment
/// its deadlines ran out.
pub open spec fn initiate_recovery_ok(e: Estate, now: i64) -> bool {
    &&& e.is_claimable
    &&& now - e.last_active - e.inactivity_period - e.grace_period >= RECOVERY_DWELL_PERIOD
}

/// The refusal a failing initiation reports.
pub open spec fn initiate_recovery_err(e: Estate, now: i64) -> EstateError {
    if !e.is_claimable {
        EstateError::NotClaimable
    } else {
        EstateError::RecoveryTooEarly
    }
}

/// An administrator opens a recovery: the record notes who asked and why,
/// and fixes the earliest execution moment at `now` plus the seven-day
/// delay.
pub fn initiate_recovery(estate: &Estate, admin: AccountId, reason: String, now: i64) -> (r:
    Result<Recovery, EstateError>)
    requires
        estate.wf(),
        0 <= now <= MAX_TIMESTAMP,
    ensures
        r is Ok <==> initiate_recovery_ok(*estate, now),
        r matches Ok(recovery) ==> {
            &&& recovery.estate == estate.estate_id
            &&& recovery.initiator == admin
            &&& recovery.initiation_time == now
            &&& recovery.execution_time == now + RECOVERY_DELAY
            &&& recovery.reason == reason
            &&& !recovery.is_executed
        },
        !initiate_recovery_ok(*estate, now)
            ==> r == Err::<Recovery, EstateError>(initiate_recovery_err(*estate, now)),
{
    if !estate.is_claimable {
        return Err(EstateError::NotClaimable);
    }
    let claimable_duration = now - estate.last_active - estate.inactivity_period
        - estate.grace_period;
    if claimable_duration < RECOVERY_DWELL_PERIOD {
        return Err(EstateError::RecoveryTooEarly);
    }
    Ok(
        Recovery {
            estate: estate.estate_id,
            initiator: admin,
            initiation_time: now,
            execution_time: now + RECOVERY_DELAY,
            reason,
            is_executed: false,
        },
    )
}

/// Whether executing a pending recovery may go through: it has not run
/// before and its delay has expired.
pub open spec fn execute_recovery_ok(recovery: Recovery, now: i64) -> bool {
    &&& !recovery.is_executed
    &&& now >= recovery.execution_time
}

/// The refusal a failing execution reports.
pub open spec fn execute_recovery_err(recovery: Recovery, now: i64) -> EstateError {
    if recovery.is_executed {
        EstateError::RecoveryAlreadyExecuted
    } else {
        EstateError::RecoveryNotReady
    }
}

/// Runs a pending recovery once its delay has expired: the designated
/// recovery identity becomes the owner, the claimable and locked flags are
/// cleared, and the beneficiary ledger is emptied — the new owner must
/// configure inheritance from scratch. The record is marked executed and
/// is terminal: a second call reports `RecoveryAlreadyExecuted`.
pub fn execute_recovery(
    estate: &mut Estate,
    recovery: &mut Recovery,
    recovery_address: AccountId,
    now: i64,
) -> (r: Result<(), EstateError>)
    requires
        old(estate).wf(),
        old(recovery).estate == old(estate).estate_id,
    ensures
        final(estate).wf(),
        r is Ok <==> execute_recovery_ok(*old(recovery), now),
        execute_recovery_ok(*old(recovery), now) ==> {
            &&& *final(recovery) == (Recovery { is_executed: true, ..*old(recovery) })
            &&& final(estate).beneficiaries@ == Seq::<Beneficiary>::empty()
            &&& *final(estate) == (Estate {
                owner: recovery_address,
                is_claimable: false,
                is_locked: false,
                beneficiaries: final(estate).beneficiaries,
                total_beneficiaries: 0,
                ..*old(estate)
            })
        },
        !execute_recovery_ok(*old(recovery), now)
            ==> r == Err::<(), EstateError>(execute_recovery_err(*old(recovery), now))
                && *final(estate) == *old(estate) && *final(recovery) == *old(recovery),
{
    if recovery.is_executed {
        return Err(EstateError::RecoveryAlreadyExecuted);
    }
    if now < recovery.execution_time {
        return Err(EstateError::RecoveryNotReady);
    }
    recovery.is_executed = true;
    estate.owner = recovery_address;
    estate.is_claimable = false;
    estate.is_locked = false;
    estate.beneficiaries = Vec::new();
    estate.total_beneficiaries = 0;
    Ok(())
}

} // verus!
