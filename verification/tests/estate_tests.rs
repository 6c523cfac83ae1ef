use defai_estate::account::AccountId;
use defai_estate::beneficiary::Beneficiary;
use defai_estate::errors::EstateError;
use defai_estate::estate::{
    check_in, create_estate, emergency_lock, emergency_unlock, trigger_inheritance,
    update_beneficiaries, Estate,
};
use defai_estate::registry::initialize_global_counter;
use defai_estate::{MAX_GRACE_PERIOD, MAX_INACTIVITY_PERIOD};

const DAY: i64 = 24 * 60 * 60;

fn owner() -> AccountId {
    AccountId { id: 1 }
}

fn heir(n: u64) -> AccountId {
    AccountId { id: 100 + n }
}

fn entry(address: AccountId, share_percentage: u8) -> Beneficiary {
    Beneficiary {
        address,
        email_hash: [0u8; 32],
        share_percentage,
        claimed: false,
        notification_sent: false,
    }
}

fn fresh_estate(inactivity: i64, grace: i64, now: i64) -> Estate {
    let mut counter = initialize_global_counter();
    create_estate(
        &mut counter,
        AccountId { id: 9 },
        owner(),
        [7u8; 32],
        inactivity,
        grace,
        now,
    )
    .unwrap()
}

#[test]
fn create_estate_assigns_sequence_numbers() {
    let mut counter = initialize_global_counter();
    let first = create_estate(
        &mut counter,
        AccountId { id: 9 },
        owner(),
        [7u8; 32],
        DAY,
        DAY,
        1000,
    )
    .unwrap();
    let second = create_estate(
        &mut counter,
        AccountId { id: 10 },
        AccountId { id: 2 },
        [8u8; 32],
        DAY,
        DAY,
        2000,
    )
    .unwrap();
    assert_eq!(first.estate_number, 0);
    assert_eq!(second.estate_number, 1);
    assert_eq!(counter.count, 2);
    assert_eq!(first.owner, owner());
    assert_eq!(first.owner_email_hash, [7u8; 32]);
    assert_eq!(first.last_active, 1000);
    assert_eq!(first.creation_time, 1000);
    assert_eq!(first.total_beneficiaries, 0);
    assert!(first.beneficiaries.is_empty());
    assert!(!first.is_locked);
    assert!(!first.is_claimable);
    assert!(!first.has_joint_account);
}

#[test]
fn create_estate_rejects_bad_inactivity() {
    let mut counter = initialize_global_counter();
    let too_short = create_estate(
        &mut counter,
        AccountId { id: 9 },
        owner(),
        [0u8; 32],
        DAY - 1,
        DAY,
        0,
    );
    assert_eq!(too_short.unwrap_err(), EstateError::InvalidInactivityPeriod);
    let too_long = create_estate(
        &mut counter,
        AccountId { id: 9 },
        owner(),
        [0u8; 32],
        MAX_INACTIVITY_PERIOD + 1,
        DAY,
        0,
    );
    assert_eq!(too_long.unwrap_err(), EstateError::InvalidInactivityPeriod);
    assert_eq!(counter.count, 0);
}

#[test]
fn create_estate_rejects_bad_grace() {
    let mut counter = initialize_global_counter();
    let too_short = create_estate(
        &mut counter,
        AccountId { id: 9 },
        owner(),
        [0u8; 32],
        DAY,
        DAY - 1,
        0,
    );
    assert_eq!(too_short.unwrap_err(), EstateError::InvalidGracePeriod);
    let too_long = create_estate(
        &mut counter,
        AccountId { id: 9 },
        owner(),
        [0u8; 32],
        DAY,
        MAX_GRACE_PERIOD + 1,
        0,
    );
    assert_eq!(too_long.unwrap_err(), EstateError::InvalidGracePeriod);
    assert_eq!(counter.count, 0);
}

#[test]
fn update_beneficiaries_accepts_exact_hundred() {
    let mut estate = fresh_estate(DAY, DAY, 0);
    let list = vec![entry(heir(1), 60), entry(heir(2), 40)];
    assert!(update_beneficiaries(&mut estate, owner(), list).is_ok());
    assert_eq!(estate.total_beneficiaries, 2);
    assert_eq!(estate.beneficiaries.len(), 2);
    assert_eq!(estate.beneficiaries[0].share_percentage, 60);
    assert_eq!(estate.beneficiaries[1].share_percentage, 40);
}

#[test]
fn update_beneficiaries_rejects_bad_sum() {
    let mut estate = fresh_estate(DAY, DAY, 0);
    let list = vec![entry(heir(1), 50), entry(heir(2), 49)];
    assert_eq!(
        update_beneficiaries(&mut estate, owner(), list).unwrap_err(),
        EstateError::InvalidBeneficiaryShares
    );
    assert_eq!(estate.total_beneficiaries, 0);
}

#[test]
fn update_beneficiaries_rejects_wrapped_sum() {
    // 89 * 4 = 356, which an eight-bit accumulator would wrap to 100; the
    // mathematical sum is what counts, so the list is refused.
    let mut estate = fresh_estate(DAY, DAY, 0);
    let list = vec![
        entry(heir(1), 89),
        entry(heir(2), 89),
        entry(heir(3), 89),
        entry(heir(4), 89),
    ];
    assert_eq!(
        update_beneficiaries(&mut estate, owner(), list).unwrap_err(),
        EstateError::InvalidBeneficiaryShares
    );
}

#[test]
fn update_beneficiaries_rejects_eleven_entries() {
    let mut estate = fresh_estate(DAY, DAY, 0);
    let mut list = Vec::new();
    for n in 0..11 {
        list.push(entry(heir(n), 10));
    }
    assert_eq!(
        update_beneficiaries(&mut estate, owner(), list).unwrap_err(),
        EstateError::TooManyBeneficiaries
    );
}

#[test]
fn update_beneficiaries_accepts_ten_entries() {
    let mut estate = fresh_estate(DAY, DAY, 0);
    let mut list = Vec::new();
    for n in 0..10 {
        list.push(entry(heir(n), 10));
    }
    assert!(update_beneficiaries(&mut estate, owner(), list).is_ok());
    assert_eq!(estate.total_beneficiaries, 10);
}

#[test]
fn update_beneficiaries_requires_owner() {
    let mut estate = fresh_estate(DAY, DAY, 0);
    let list = vec![entry(heir(1), 100)];
    assert_eq!(
        update_beneficiaries(&mut estate, heir(1), list).unwrap_err(),
        EstateError::UnauthorizedAccess
    );
}

#[test]
fn update_beneficiaries_rejects_when_claimable() {
    let mut estate = fresh_estate(DAY, DAY, 0);
    trigger_inheritance(&mut estate, 2 * DAY + 1).unwrap();
    let list = vec![entry(heir(1), 100)];
    assert_eq!(
        update_beneficiaries(&mut estate, owner(), list).unwrap_err(),
        EstateError::EstateClaimable
    );
}

#[test]
fn update_beneficiaries_rejects_when_locked() {
    let mut estate = fresh_estate(DAY, DAY, 0);
    emergency_lock(&mut estate, owner()).unwrap();
    let list = vec![entry(heir(1), 100)];
    assert_eq!(
        update_beneficiaries(&mut estate, owner(), list).unwrap_err(),
        EstateError::EstateLocked
    );
}

#[test]
fn check_in_resets_clock_and_cancels_pending_window() {
    let mut estate = fresh_estate(DAY, DAY, 0);
    trigger_inheritance(&mut estate, 2 * DAY + 1).unwrap();
    assert!(estate.is_claimable);
    assert!(check_in(&mut estate, owner(), 3 * DAY).is_ok());
    assert_eq!(estate.last_active, 3 * DAY);
    assert!(!estate.is_claimable);
}

#[test]
fn check_in_rejects_locked_and_stranger() {
    let mut estate = fresh_estate(DAY, DAY, 0);
    assert_eq!(
        check_in(&mut estate, heir(1), 10).unwrap_err(),
        EstateError::UnauthorizedAccess
    );
    emergency_lock(&mut estate, owner()).unwrap();
    assert_eq!(
        check_in(&mut estate, owner(), 10).unwrap_err(),
        EstateError::EstateLocked
    );
    assert_eq!(estate.last_active, 0);
}

#[test]
fn trigger_inheritance_boundary_is_strict() {
    // inactivity 24h, grace 24h, last activity at 0: the window opens only
    // strictly after the 48-hour mark.
    let mut estate = fresh_estate(DAY, DAY, 0);
    assert_eq!(
        trigger_inheritance(&mut estate, 2 * DAY - 60).unwrap_err(),
        EstateError::NotYetClaimable
    );
    assert_eq!(
        trigger_inheritance(&mut estate, 2 * DAY).unwrap_err(),
        EstateError::NotYetClaimable
    );
    assert!(trigger_inheritance(&mut estate, 2 * DAY + 1).is_ok());
    assert!(estate.is_claimable);
}

#[test]
fn trigger_inheritance_rejects_locked_and_repeat() {
    let mut estate = fresh_estate(DAY, DAY, 0);
    emergency_lock(&mut estate, owner()).unwrap();
    assert_eq!(
        trigger_inheritance(&mut estate, 3 * DAY).unwrap_err(),
        EstateError::EstateLocked
    );
    emergency_unlock(&mut estate, owner(), [0u8; 32]).unwrap();
    trigger_inheritance(&mut estate, 3 * DAY).unwrap();
    assert_eq!(
        trigger_inheritance(&mut estate, 4 * DAY).unwrap_err(),
        EstateError::AlreadyClaimable
    );
}

#[test]
fn emergency_lock_unlock_cycle() {
    let mut estate = fresh_estate(DAY, DAY, 0);
    assert_eq!(
        emergency_lock(&mut estate, heir(1)).unwrap_err(),
        EstateError::UnauthorizedAccess
    );
    assert_eq!(
        emergency_unlock(&mut estate, owner(), [0u8; 32]).unwrap_err(),
        EstateError::NotLocked
    );
    assert!(emergency_lock(&mut estate, owner()).is_ok());
    assert!(estate.is_locked);
    assert_eq!(
        emergency_lock(&mut estate, owner()).unwrap_err(),
        EstateError::AlreadyLocked
    );
    assert_eq!(
        emergency_unlock(&mut estate, heir(1), [0u8; 32]).unwrap_err(),
        EstateError::UnauthorizedAccess
    );
    assert!(emergency_unlock(&mut estate, owner(), [0u8; 32]).is_ok());
    assert!(!estate.is_locked);
}
