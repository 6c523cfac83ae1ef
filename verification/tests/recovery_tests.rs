use defai_estate::account::AccountId;
use defai_estate::beneficiary::Beneficiary;
use defai_estate::errors::EstateError;
use defai_estate::estate::{create_estate, trigger_inheritance, update_beneficiaries, Estate};
use defai_estate::recovery::{execute_recovery, initiate_recovery};
use defai_estate::registry::initialize_global_counter;
use defai_estate::{RECOVERY_DELAY, RECOVERY_DWELL_PERIOD};

const DAY: i64 = 24 * 60 * 60;

fn owner() -> AccountId {
    AccountId { id: 1 }
}

fn admin() -> AccountId {
    AccountId { id: 50 }
}

/// A claimable estate whose deadlines ran out at `2 * DAY`.
fn claimable_estate() -> Estate {
    let mut counter = initialize_global_counter();
    let mut estate = create_estate(
        &mut counter,
        AccountId { id: 9 },
        owner(),
        [0u8; 32],
        DAY,
        DAY,
        0,
    )
    .unwrap();
    let list = vec![Beneficiary {
        address: AccountId { id: 100 },
        email_hash: [0u8; 32],
        share_percentage: 100,
        claimed: false,
        notification_sent: false,
    }];
    update_beneficiaries(&mut estate, owner(), list).unwrap();
    trigger_inheritance(&mut estate, 2 * DAY + 1).unwrap();
    estate
}

#[test]
fn initiate_recovery_requires_claimable_estate() {
    let mut counter = initialize_global_counter();
    let estate = create_estate(
        &mut counter,
        AccountId { id: 9 },
        owner(),
        [0u8; 32],
        DAY,
        DAY,
        0,
    )
    .unwrap();
    assert_eq!(
        initiate_recovery(&estate, admin(), String::from("owner unreachable"), 40 * DAY)
            .unwrap_err(),
        EstateError::NotClaimable
    );
}

#[test]
fn initiate_recovery_requires_thirty_day_dwell() {
    let estate = claimable_estate();
    // deadlines ran out at 2 * DAY; one second short of the dwell period
    let too_early = 2 * DAY + RECOVERY_DWELL_PERIOD - 1;
    assert_eq!(
        initiate_recovery(&estate, admin(), String::from("owner unreachable"), too_early)
            .unwrap_err(),
        EstateError::RecoveryTooEarly
    );
    let on_time = 2 * DAY + RECOVERY_DWELL_PERIOD;
    let recovery =
        initiate_recovery(&estate, admin(), String::from("owner unreachable"), on_time).unwrap();
    assert_eq!(recovery.estate, AccountId { id: 9 });
    assert_eq!(recovery.initiator, admin());
    assert_eq!(recovery.initiation_time, on_time);
    assert_eq!(recovery.execution_time, on_time + RECOVERY_DELAY);
    assert_eq!(recovery.reason, "owner unreachable");
    assert!(!recovery.is_executed);
}

#[test]
fn scenario_recovery_delay_execution_and_terminality() {
    // Recovery is initiated the moment the dwell period is met; executing
    // before the seven-day delay fails, at the mark it succeeds, replaces
    // the owner, clears the ledger, and can never run again.
    let mut estate = claimable_estate();
    let initiated_at = 2 * DAY + RECOVERY_DWELL_PERIOD;
    let mut recovery = initiate_recovery(
        &estate,
        admin(),
        String::from("owner unreachable"),
        initiated_at,
    )
    .unwrap();
    let new_owner = AccountId { id: 77 };
    assert_eq!(
        execute_recovery(&mut estate, &mut recovery, new_owner, initiated_at + RECOVERY_DELAY - 1)
            .unwrap_err(),
        EstateError::RecoveryNotReady
    );
    assert!(estate.is_claimable);
    assert!(
        execute_recovery(&mut estate, &mut recovery, new_owner, initiated_at + RECOVERY_DELAY)
            .is_ok()
    );
    assert!(recovery.is_executed);
    assert_eq!(estate.owner, new_owner);
    assert!(!estate.is_claimable);
    assert!(!estate.is_locked);
    assert!(estate.beneficiaries.is_empty());
    assert_eq!(estate.total_beneficiaries, 0);
    assert_eq!(
        execute_recovery(&mut estate, &mut recovery, new_owner, initiated_at + 2 * RECOVERY_DELAY)
            .unwrap_err(),
        EstateError::RecoveryAlreadyExecuted
    );
    assert_eq!(estate.owner, new_owner);
}
