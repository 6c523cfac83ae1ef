//! The estate state machine: activity tracking, the beneficiary ledger,
//! the emergency lock and the transition into claimability.
//!
//! Every operation takes the authenticated caller and the host clock's
//! reading as plain arguments, and either performs exactly the transition
//! its contract states or returns the first applicable refusal with the
//! estate untouched.
use vstd::prelude::*;

use crate::account::AccountId;
use crate::beneficiary::{lemma_share_le_sum, shares_sum, Beneficiary};
use crate::errors::EstateError;
use crate::joint::JointAccountConfig;
use crate::registry::GlobalCounter;
use crate::{
    MAX_BENEFICIARIES, MAX_GRACE_PERIOD, MAX_INACTIVITY_PERIOD, MAX_TIMESTAMP, MIN_GRACE_PERIOD,
    MIN_INACTIVITY_PERIOD,
};

verus! {

/// One owner's inheritance vault.
///
/// `last_active` plus the two periods fixes the moment after which anyone
/// may trigger claimability. `is_locked` freezes all mutation;
/// `is_claimable` closes the owner's side and opens the claim engine.
#[derive(Clone, Debug)]
pub struct Estate {
    pub estate_id: AccountId,
    pub owner: AccountId,
    pub owner_email_hash: [u8; 32],
    pub last_active: i64,
    pub inactivity_period: i64,
    pub grace_period: i64,
    pub beneficiaries: Vec<Beneficiary>,
    pub total_beneficiaries: u8,
    pub creation_time: i64,
    pub estate_value: u64,
    pub is_locked: bool,
    pub is_claimable: bool,
    pub total_rwas: u32,
    pub estate_number: u64,
    pub total_claims: u8,
    pub has_joint_account: bool,
    pub joint_account_config: Option<JointAccountConfig>,
}

impl Estate {
    /// What creation establishes and every operation preserves: the periods
    /// sit in their documented bounds, the activity clock is a sane host
    /// time, the ledger is consistent with its count, and a non-empty
    /// ledger's shares sum to exactly 100 with no single share above 100.
    pub open spec fn wf(self) -> bool {
        &&& MIN_INACTIVITY_PERIOD <= self.inactivity_period <= MAX_INACTIVITY_PERIOD
        &&& MIN_GRACE_PERIOD <= self.grace_period <= MAX_GRACE_PERIOD
        &&& 0 <= self.last_active <= MAX_TIMESTAMP
        &&& self.beneficiaries@.len() <= MAX_BENEFICIARIES
        &&& self.total_beneficiaries == self.beneficiaries@.len()
        &&& self.beneficiaries@.len() > 0 ==> shares_sum(self.beneficiaries@) == 100
        &&& forall|i: int|
            0 <= i < self.beneficiaries@.len()
                ==> #[trigger] self.beneficiaries@[i].share_percentage <= 100
    }

    /// Counts an owner-side action as activity: the inactivity clock
    /// restarts and a pending, not yet finalized claimable window is
    /// cancelled.
    pub fn check_in(&mut self, now: i64)
        requires
            0 <= now <= MAX_TIMESTAMP,
        ensures
            *final(self) == (Estate { last_active: now, is_claimable: false, ..*old(self) }),
    {
        self.last_active = now;
        self.is_claimable = false;
    }
}

/// The inactivity period an estate may be created with.
pub open spec fn inactivity_period_ok(period: i64) -> bool {
    MIN_INACTIVITY_PERIOD <= period <= MAX_INACTIVITY_PERIOD
}

/// The grace period an estate may be created with.
pub open spec fn grace_period_ok(period: i64) -> bool {
    MIN_GRACE_PERIOD <= period <= MAX_GRACE_PERIOD
}

/// Opens a new estate numbered by the registry.
///
/// Succeeds exactly when both periods sit in their bounds; the new estate
/// starts active, unlocked, with an empty ledger and the registry's next
/// number, and the registry counter moves up by one. On refusal the
/// counter does not move.
pub fn create_estate(
    counter: &mut GlobalCounter,
    estate_id: AccountId,
    owner: AccountId,
    owner_email_hash: [u8; 32],
    inactivity_period: i64,
    grace_period: i64,
    now: i64,
) -> (r: Result<Estate, EstateError>)
    requires
        0 <= now <= MAX_TIMESTAMP,
        old(counter).count < u64::MAX,
    ensures
        r is Ok <==> inactivity_period_ok(inactivity_period) && grace_period_ok(grace_period),
        !inactivity_period_ok(inactivity_period)
            ==> r == Err::<Estate, EstateError>(EstateError::InvalidInactivityPeriod)
                && *final(counter) == *old(counter),
        inactivity_period_ok(inactivity_period) && !grace_period_ok(grace_period)
            ==> r == Err::<Estate, EstateError>(EstateError::InvalidGracePeriod)
                && *final(counter) == *old(counter),
        r matches Ok(estate) ==> {
            &&& estate.wf()
            &&& estate.estate_id == estate_id
            &&& estate.owner == owner
            &&& estate.owner_email_hash == owner_email_hash
            &&& estate.last_active == now
            &&& estate.inactivity_period == inactivity_period
            &&& estate.grace_period == grace_period
            &&& estate.beneficiaries@ == Seq::<Beneficiary>::empty()
            &&& estate.total_beneficiaries == 0
            &&& estate.creation_time == now
            &&& estate.estate_value == 0
            &&& !estate.is_locked
            &&& !estate.is_claimable
            &&& estate.total_rwas == 0
            &&& estate.estate_number == old(counter).count
            &&& estate.total_claims == 0
            &&& !estate.has_joint_account
            &&& estate.joint_account_config is None
            &&& final(counter).count == old(counter).count + 1
        },
{
    if !(inactivity_period >= MIN_INACTIVITY_PERIOD && inactivity_period <= MAX_INACTIVITY_PERIOD) {
        return Err(EstateError::InvalidInactivityPeriod);
    }
    if !(grace_period >= MIN_GRACE_PERIOD && grace_period <= MAX_GRACE_PERIOD) {
        return Err(EstateError::InvalidGracePeriod);
    }
    let estate = Estate {
        estate_id,
        owner,
        owner_email_hash,
        last_active: now,
        inactivity_period,
        grace_period,
        beneficiaries: Vec::new(),
        total_beneficiaries: 0,
        creation_time: now,
        estate_value: 0,
        is_locked: false,
        is_claimable: false,
        total_rwas: 0,
        estate_number: counter.count,
        total_claims: 0,
        has_joint_account: false,
        joint_account_config: None,
    };
    counter.count = counter.count + 1;
    Ok(estate)
}

/// When an owner's check-in goes through: the estate is not frozen and the
/// caller is the owner.
pub open spec fn check_in_ok(e: Estate, caller: AccountId) -> bool {
    &&& !e.is_locked
    &&& caller == e.owner
}

/// The refusal a failing check-in reports: the freeze outranks the
/// authorization check.
pub open spec fn check_in_err(e: Estate, caller: AccountId) -> EstateError {
    if e.is_locked {
        EstateError::EstateLocked
    } else {
        EstateError::UnauthorizedAccess
    }
}

/// The owner proves activity: the inactivity clock restarts at `now` and a
/// pending, not yet finalized claimable window is cancelled. This is the
/// one way back out of a pending window.
pub fn check_in(estate: &mut Estate, caller: AccountId, now: i64) -> (r: Result<(), EstateError>)
    requires
        old(estate).wf(),
        0 <= now <= MAX_TIMESTAMP,
    ensures
        final(estate).wf(),
        r is Ok <==> check_in_ok(*old(estate), caller),
        check_in_ok(*old(estate), caller)
            ==> *final(estate) == (Estate {
                last_active: now,
                is_claimable: false,
                ..*old(estate)
            }),
        !check_in_ok(*old(estate), caller)
            ==> r == Err::<(), EstateError>(check_in_err(*old(estate), caller))
                && *final(estate) == *old(estate),
{
    if estate.is_locked {
        return Err(EstateError::EstateLocked);
    }
    if caller != estate.owner {
        return Err(EstateError::UnauthorizedAccess);
    }
    estate.check_in(now);
    Ok(())
}

/// When replacing the ledger goes through: the estate is mutable by its
/// owner (not frozen, not claimable, caller is the owner), the list is not
/// oversized and its shares sum to exactly 100.
pub open spec fn update_beneficiaries_ok(
    e: Estate,
    caller: AccountId,
    list: Seq<Beneficiary>,
) -> bool {
    &&& !e.is_locked
    &&& !e.is_claimable
    &&& caller == e.owner
    &&& list.len() <= MAX_BENEFICIARIES
    &&& shares_sum(list) == 100
}

/// The refusal a failing replacement reports, in the order the conditions
/// are checked.
pub open spec fn update_beneficiaries_err(
    e: Estate,
    caller: AccountId,
    list: Seq<Beneficiary>,
) -> EstateError {
    if e.is_locked {
        EstateError::EstateLocked
    } else if e.is_claimable {
        EstateError::EstateClaimable
    } else if caller != e.owner {
        EstateError::UnauthorizedAccess
    } else if list.len() > MAX_BENEFICIARIES {
        EstateError::TooManyBeneficiaries
    } else {
        EstateError::InvalidBeneficiaryShares
    }
}

/// Replaces the whole beneficiary ledger at once; there is no partial
/// update. Succeeds exactly when the estate is mutable by its owner, the
/// list holds at most `MAX_BENEFICIARIES` entries and the shares sum to
/// exactly 100 — the sum is taken mathematically, so a list whose shares
/// only wrap around to 100 in narrow arithmetic is refused.
pub fn update_beneficiaries(
    estate: &mut Estate,
    caller: AccountId,
    beneficiaries: Vec<Beneficiary>,
) -> (r: Result<(), EstateError>)
    requires
        old(estate).wf(),
    ensures
        final(estate).wf(),
        r is Ok <==> update_beneficiaries_ok(*old(estate), caller, beneficiaries@),
        update_beneficiaries_ok(*old(estate), caller, beneficiaries@)
            ==> *final(estate) == (Estate {
                beneficiaries,
                total_beneficiaries: beneficiaries@.len() as u8,
                ..*old(estate)
            }),
        !update_beneficiaries_ok(*old(estate), caller, beneficiaries@)
            ==> r == Err::<(), EstateError>(
                update_beneficiaries_err(*old(estate), caller, beneficiaries@),
            ) && *final(estate) == *old(estate),
{
    if estate.is_locked {
        return Err(EstateError::EstateLocked);
    }
    if estate.is_claimable {
        return Err(EstateError::EstateClaimable);
    }
    if caller != estate.owner {
        return Err(EstateError::UnauthorizedAccess);
    }
    if beneficiaries.len() > MAX_BENEFICIARIES as usize {
        return Err(EstateError::TooManyBeneficiaries);
    }
    let ghost list = beneficiaries@;
    let mut total: u32 = 0;
    let mut i: usize = 0;
    while i < beneficiaries.len()
        invariant
            i <= list.len(),
            list.len() <= MAX_BENEFICIARIES,
            beneficiaries@ == list,
            total == shares_sum(list.take(i as int)),
            total <= 255 * i,
        decreases list.len() - i,
    {
        proof {
            assert(list.take(i + 1).drop_last() =~= list.take(i as int));
            assert(list.take(i + 1).last() == list[i as int]);
        }
        total = total + beneficiaries[i].share_percentage as u32;
        i = i + 1;
    }
    proof {
        assert(list.take(list.len() as int) =~= list);
    }
    if total != 100 {
        return Err(EstateError::InvalidBeneficiaryShares);
    }
    proof {
        assert forall|j: int| 0 <= j < list.len() implies #[trigger] list[j].share_percentage
            <= 100 by {
            lemma_share_le_sum(list, j);
        }
    }
    let count = beneficiaries.len() as u8;
    estate.beneficiaries = beneficiaries;
    estate.total_beneficiaries = count;
    Ok(())
}

/// The moment the claim window opens: strictly after the inactivity period
/// and the grace period have both run out since the owner's last activity.
pub open spec fn inheritance_due(e: Estate, now: i64) -> bool {
    now > e.last_active + e.inactivity_period + e.grace_period
}

/// When triggering goes through: the estate is not frozen — an emergency
/// lock deliberately blocks this transition too — not already claimable,
/// and the deadline has passed.
pub open spec fn trigger_inheritance_ok(e: Estate, now: i64) -> bool {
    &&& !e.is_locked
    &&& !e.is_claimable
    &&& inheritance_due(e, now)
}

/// The refusal a failing trigger reports.
pub open spec fn trigger_inheritance_err(e: Estate, now: i64) -> EstateError {
    if e.is_locked {
        EstateError::EstateLocked
    } else if e.is_claimable {
        EstateError::AlreadyClaimable
    } else {
        EstateError::NotYetClaimable
    }
}

/// Any caller may move an overdue estate into the claimable state. This is
/// the sole way in: it succeeds exactly when `now` lies strictly past
/// `last_active + inactivity_period + grace_period` on an unfrozen,
/// not yet claimable estate — the boundary instant itself still fails —
/// and it is irreversible except through recovery.
pub fn trigger_inheritance(estate: &mut Estate, now: i64) -> (r: Result<(), EstateError>)
    requires
        old(estate).wf(),
    ensures
        final(estate).wf(),
        r is Ok <==> trigger_inheritance_ok(*old(estate), now),
        trigger_inheritance_ok(*old(estate), now)
            ==> *final(estate) == (Estate { is_claimable: true, ..*old(estate) }),
        !trigger_inheritance_ok(*old(estate), now)
            ==> r == Err::<(), EstateError>(trigger_inheritance_err(*old(estate), now))
                && *final(estate) == *old(estate),
{
    if estate.is_locked {
        return Err(EstateError::EstateLocked);
    }
    if estate.is_claimable {
        return Err(EstateError::AlreadyClaimable);
    }
    let inactive_since = estate.last_active + estate.inactivity_period;
    let grace_ends = inactive_since + estate.grace_period;
    if !(now > grace_ends) {
        return Err(EstateError::NotYetClaimable);
    }
    estate.is_claimable = true;
    Ok(())
}

/// When freezing goes through: not already frozen, and the caller is the
/// owner.
pub open spec fn emergency_lock_ok(e: Estate, caller: AccountId) -> bool {
    &&& !e.is_locked
    &&& caller == e.owner
}

/// The refusal a failing freeze reports.
pub open spec fn emergency_lock_err(e: Estate, caller: AccountId) -> EstateError {
    if e.is_locked {
        EstateError::AlreadyLocked
    } else {
        EstateError::UnauthorizedAccess
    }
}

/// The owner freezes the estate: all mutation, claim activity and the
/// claimability trigger are refused until it is unlocked.
pub fn emergency_lock(estate: &mut Estate, caller: AccountId) -> (r: Result<(), EstateError>)
    requires
        old(estate).wf(),
    ensures
        final(estate).wf(),
        r is Ok <==> emergency_lock_ok(*old(estate), caller),
        emergency_lock_ok(*old(estate), caller)
            ==> *final(estate) == (Estate { is_locked: true, ..*old(estate) }),
        !emergency_lock_ok(*old(estate), caller)
            ==> r == Err::<(), EstateError>(emergency_lock_err(*old(estate), caller))
                && *final(estate) == *old(estate),
{
    if estate.is_locked {
        return Err(EstateError::AlreadyLocked);
    }
    if caller != estate.owner {
        return Err(EstateError::UnauthorizedAccess);
    }
    estate.is_locked = true;
    Ok(())
}

/// When unfreezing goes through: currently frozen, and the caller is the
/// owner.
pub open spec fn emergency_unlock_ok(e: Estate, caller: AccountId) -> bool {
    &&& e.is_locked
    &&& caller == e.owner
}

/// The refusal a failing unfreeze reports.
pub open spec fn emergency_unlock_err(e: Estate, caller: AccountId) -> EstateError {
    if !e.is_locked {
        EstateError::NotLocked
    } else {
        EstateError::UnauthorizedAccess
    }
}

/// The owner lifts the freeze. The verification code is the host's
/// out-of-band second factor; the rules here do not interpret it.
pub fn emergency_unlock(
    estate: &mut Estate,
    caller: AccountId,
    _verification_code: [u8; 32],
) -> (r: Result<(), EstateError>)
    requires
        old(estate).wf(),
    ensures
        final(estate).wf(),
        r is Ok <==> emergency_unlock_ok(*old(estate), caller),
        emergency_unlock_ok(*old(estate), caller)
            ==> *final(estate) == (Estate { is_locked: false, ..*old(estate) }),
        !emergency_unlock_ok(*old(estate), caller)
            ==> r == Err::<(), EstateError>(emergency_unlock_err(*old(estate), caller))
                && *final(estate) == *old(estate),
{
    if !estate.is_locked {
        return Err(EstateError::NotLocked);
    }
    if caller != estate.owner {
        return Err(EstateError::UnauthorizedAccess);
    }
    estate.is_locked = false;
    Ok(())
}

} // verus!
