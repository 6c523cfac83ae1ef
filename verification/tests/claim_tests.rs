use defai_estate::account::AccountId;
use defai_estate::beneficiary::Beneficiary;
use defai_estate::claim::{
    claim_inheritance, claim_inheritance_v2, claim_nft, claim_token, close_estate,
};
use defai_estate::errors::EstateError;
use defai_estate::estate::{check_in, create_estate, trigger_inheritance, update_beneficiaries, Estate};
use defai_estate::registry::initialize_global_counter;
use defai_estate::MIN_RENT_BALANCE;

const DAY: i64 = 24 * 60 * 60;
const HOUR: i64 = 60 * 60;

fn owner() -> AccountId {
    AccountId { id: 1 }
}

fn heir(n: u64) -> AccountId {
    AccountId { id: 100 + n }
}

fn mint(n: u64) -> AccountId {
    AccountId { id: 500 + n }
}

fn entry(address: AccountId, share_percentage: u8) -> Beneficiary {
    Beneficiary {
        address,
        email_hash: [0u8; 32],
        share_percentage,
        claimed: false,
        notification_sent: false,
    }
}

/// An estate with a 60/40 ledger, already claimable at `3 * DAY`.
fn claimable_estate() -> Estate {
    let mut counter = initialize_global_counter();
    let mut estate = create_estate(
        &mut counter,
        AccountId { id: 9 },
        owner(),
        [0u8; 32],
        DAY,
        DAY,
        0,
    )
    .unwrap();
    let list = vec![entry(heir(1), 60), entry(heir(2), 40)];
    update_beneficiaries(&mut estate, owner(), list).unwrap();
    trigger_inheritance(&mut estate, 2 * DAY + 1).unwrap();
    estate
}

#[test]
fn scenario_two_day_window_then_sixty_percent_claim() {
    // Inactivity 24h and grace 24h; the owner checks in at t = 0. At
    // t = 47h59m triggering still fails, at t = 48h1m it succeeds, and the
    // 60-percent beneficiary receives floor((balance - reserve) * 60 / 100).
    let mut counter = initialize_global_counter();
    let mut estate = create_estate(
        &mut counter,
        AccountId { id: 9 },
        owner(),
        [0u8; 32],
        DAY,
        DAY,
        -100,
    )
    .unwrap();
    check_in(&mut estate, owner(), 0).unwrap();
    let list = vec![entry(heir(1), 60), entry(heir(2), 40)];
    update_beneficiaries(&mut estate, owner(), list).unwrap();
    assert_eq!(
        trigger_inheritance(&mut estate, 47 * HOUR + 59 * 60).unwrap_err(),
        EstateError::NotYetClaimable
    );
    assert!(trigger_inheritance(&mut estate, 48 * HOUR + 60).is_ok());
    let balance = 10 * MIN_RENT_BALANCE;
    let record = claim_inheritance_v2(&mut estate, heir(1), 0, balance, 49 * HOUR).unwrap();
    assert_eq!(record.sol_amount, (balance - MIN_RENT_BALANCE) * 60 / 100);
}

#[test]
fn claim_v2_pays_exact_floor() {
    let mut estate = claimable_estate();
    // 101 distributable units at 60 percent: 60.6 floors to 60.
    let balance = MIN_RENT_BALANCE + 101;
    let record = claim_inheritance_v2(&mut estate, heir(1), 0, balance, 3 * DAY).unwrap();
    assert_eq!(record.sol_amount, 60);
    assert_eq!(record.share_percentage, 60);
    assert_eq!(record.beneficiary, heir(1));
    assert_eq!(record.estate, AccountId { id: 9 });
    assert_eq!(record.claim_time, 3 * DAY);
    assert!(record.tokens_claimed.is_empty());
    assert!(record.nfts_claimed.is_empty());
    assert_eq!(estate.total_claims, 1);
    assert!(estate.beneficiaries[0].claimed);
    assert!(!estate.beneficiaries[1].claimed);
}

#[test]
fn claim_v2_below_reserve_pays_zero() {
    let mut estate = claimable_estate();
    let record = claim_inheritance_v2(&mut estate, heir(1), 0, MIN_RENT_BALANCE - 1, 3 * DAY)
        .unwrap();
    assert_eq!(record.sol_amount, 0);
    assert!(estate.beneficiaries[0].claimed);
}

#[test]
fn claim_v2_is_not_idempotent() {
    let mut estate = claimable_estate();
    let balance = MIN_RENT_BALANCE + 1000;
    assert!(claim_inheritance_v2(&mut estate, heir(1), 0, balance, 3 * DAY).is_ok());
    assert_eq!(
        claim_inheritance_v2(&mut estate, heir(1), 0, balance, 3 * DAY).unwrap_err(),
        EstateError::AlreadyClaimed
    );
    assert_eq!(estate.total_claims, 1);
}

#[test]
fn claim_v2_rejects_bad_callers_and_states() {
    let mut counter = initialize_global_counter();
    let mut not_claimable = create_estate(
        &mut counter,
        AccountId { id: 9 },
        owner(),
        [0u8; 32],
        DAY,
        DAY,
        0,
    )
    .unwrap();
    assert_eq!(
        claim_inheritance_v2(&mut not_claimable, heir(1), 0, 0, 0).unwrap_err(),
        EstateError::NotClaimable
    );
    let mut estate = claimable_estate();
    assert_eq!(
        claim_inheritance_v2(&mut estate, heir(1), 2, 0, 3 * DAY).unwrap_err(),
        EstateError::InvalidBeneficiaryIndex
    );
    assert_eq!(
        claim_inheritance_v2(&mut estate, heir(2), 0, 0, 3 * DAY).unwrap_err(),
        EstateError::UnauthorizedBeneficiary
    );
}

#[test]
fn claim_v1_marks_without_counting() {
    let mut estate = claimable_estate();
    assert!(claim_inheritance(&mut estate, heir(1), 0).is_ok());
    assert!(estate.beneficiaries[0].claimed);
    assert_eq!(estate.total_claims, 0);
    assert_eq!(
        claim_inheritance(&mut estate, heir(1), 0).unwrap_err(),
        EstateError::AlreadyClaimed
    );
}

#[test]
fn claim_token_requires_inheritance_first() {
    let estate = claimable_estate();
    let mut record = defai_estate::claim::ClaimRecord {
        estate: AccountId { id: 9 },
        beneficiary: heir(1),
        claim_time: 3 * DAY,
        sol_amount: 0,
        share_percentage: 60,
        tokens_claimed: Vec::new(),
        nfts_claimed: Vec::new(),
    };
    assert_eq!(
        claim_token(&estate, &mut record, heir(1), 0, mint(1), 1000).unwrap_err(),
        EstateError::MustClaimInheritanceFirst
    );
}

#[test]
fn claim_token_pays_share_and_rejects_duplicate() {
    let mut estate = claimable_estate();
    let mut record = claim_inheritance_v2(
        &mut estate,
        heir(1),
        0,
        MIN_RENT_BALANCE + 1000,
        3 * DAY,
    )
    .unwrap();
    let paid = claim_token(&estate, &mut record, heir(1), 0, mint(1), 1000).unwrap();
    assert_eq!(paid, 600);
    assert_eq!(record.tokens_claimed.len(), 1);
    assert_eq!(record.tokens_claimed[0].mint, mint(1));
    assert_eq!(record.tokens_claimed[0].amount, 600);
    assert_eq!(
        claim_token(&estate, &mut record, heir(1), 0, mint(1), 1000).unwrap_err(),
        EstateError::TokenAlreadyClaimed
    );
    // a distinct kind from the same beneficiary is accepted
    let paid2 = claim_token(&estate, &mut record, heir(1), 0, mint(2), 70).unwrap();
    assert_eq!(paid2, 42);
    assert_eq!(record.tokens_claimed.len(), 2);
}

#[test]
fn claim_token_zero_share_is_not_recorded() {
    let mut estate = claimable_estate();
    let mut record = claim_inheritance_v2(&mut estate, heir(1), 0, 0, 3 * DAY).unwrap();
    // one token at 60 percent floors to zero: nothing moves, nothing noted
    let paid = claim_token(&estate, &mut record, heir(1), 0, mint(1), 1).unwrap();
    assert_eq!(paid, 0);
    assert!(record.tokens_claimed.is_empty());
    // so the same kind may be asked again once the balance is worth it
    let paid2 = claim_token(&estate, &mut record, heir(1), 0, mint(1), 100).unwrap();
    assert_eq!(paid2, 60);
    assert_eq!(record.tokens_claimed.len(), 1);
}

#[test]
fn claim_token_rejects_foreign_record() {
    let mut estate = claimable_estate();
    let mut record = claim_inheritance_v2(
        &mut estate,
        heir(1),
        0,
        MIN_RENT_BALANCE,
        3 * DAY,
    )
    .unwrap();
    // a caller who does not own the record
    assert_eq!(
        claim_token(&estate, &mut record, heir(2), 1, mint(1), 1000).unwrap_err(),
        EstateError::UnauthorizedBeneficiary
    );
    // a record pointing at another estate
    record.estate = AccountId { id: 8 };
    assert_eq!(
        claim_token(&estate, &mut record, heir(1), 0, mint(1), 1000).unwrap_err(),
        EstateError::InvalidClaimRecord
    );
}

#[test]
fn claim_nft_requires_exactly_one_unit() {
    let mut estate = claimable_estate();
    let mut record = claim_inheritance_v2(
        &mut estate,
        heir(1),
        0,
        MIN_RENT_BALANCE,
        3 * DAY,
    )
    .unwrap();
    assert_eq!(
        claim_nft(&estate, &mut record, heir(1), 0, mint(1), 0).unwrap_err(),
        EstateError::InvalidNFTAmount
    );
    assert_eq!(
        claim_nft(&estate, &mut record, heir(1), 0, mint(1), 2).unwrap_err(),
        EstateError::InvalidNFTAmount
    );
    assert!(claim_nft(&estate, &mut record, heir(1), 0, mint(1), 1).is_ok());
}

#[test]
fn claim_nft_rejects_duplicate_but_takes_distinct() {
    let mut estate = claimable_estate();
    let mut record = claim_inheritance_v2(
        &mut estate,
        heir(1),
        0,
        MIN_RENT_BALANCE,
        3 * DAY,
    )
    .unwrap();
    assert!(claim_nft(&estate, &mut record, heir(1), 0, mint(1), 1).is_ok());
    assert_eq!(record.nfts_claimed, vec![mint(1)]);
    assert_eq!(
        claim_nft(&estate, &mut record, heir(1), 0, mint(1), 1).unwrap_err(),
        EstateError::NFTAlreadyClaimed
    );
    assert!(claim_nft(&estate, &mut record, heir(1), 0, mint(2), 1).is_ok());
    assert_eq!(record.nfts_claimed, vec![mint(1), mint(2)]);
}

#[test]
fn close_estate_requires_every_claim() {
    let mut counter = initialize_global_counter();
    let not_claimable = create_estate(
        &mut counter,
        AccountId { id: 9 },
        owner(),
        [0u8; 32],
        DAY,
        DAY,
        0,
    )
    .unwrap();
    assert_eq!(
        close_estate(&not_claimable).unwrap_err(),
        EstateError::NotClaimable
    );
    let mut estate = claimable_estate();
    assert_eq!(close_estate(&estate).unwrap_err(), EstateError::NotAllClaimed);
    claim_inheritance_v2(&mut estate, heir(1), 0, MIN_RENT_BALANCE, 3 * DAY).unwrap();
    assert_eq!(close_estate(&estate).unwrap_err(), EstateError::NotAllClaimed);
    claim_inheritance_v2(&mut estate, heir(2), 1, MIN_RENT_BALANCE, 3 * DAY).unwrap();
    assert!(close_estate(&estate).is_ok());
}
