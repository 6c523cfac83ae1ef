//! The reasons an estate operation is refused. Every operation either
//! succeeds or returns one of these with no state changed.
use vstd::prelude::*;

verus! {

/// Refusal reasons, grouped as: input validation, authorization,
/// state conflicts, and the recovery and joint-account time locks.
#[derive(Clone, Copy, Debug, PartialEq, Eq, Structural)]
pub enum EstateError {
    /// The inactivity period lies outside 24 hours ..= 300 years.
    InvalidInactivityPeriod,
    /// The grace period lies outside 24 hours ..= 90 days.
    InvalidGracePeriod,
    /// The estate is emergency-locked and refuses mutation.
    EstateLocked,
    /// The caller is not the identity the operation demands.
    UnauthorizedAccess,
    /// The estate is already claimable, so owner-side mutation is closed.
    EstateClaimable,
    /// More beneficiaries than an estate may hold.
    TooManyBeneficiaries,
    /// The beneficiary shares do not sum to exactly 100.
    InvalidBeneficiaryShares,
    /// Inheritance was already triggered.
    AlreadyClaimable,
    /// The inactivity and grace deadlines have not both passed.
    NotYetClaimable,
    /// The estate is not claimable, so the claim engine is closed.
    NotClaimable,
    /// No beneficiary sits at the given index.
    InvalidBeneficiaryIndex,
    /// The caller is not the beneficiary at the given index.
    UnauthorizedBeneficiary,
    /// This beneficiary already claimed the inheritance share.
    AlreadyClaimed,
    /// The estate is already emergency-locked.
    AlreadyLocked,
    /// The estate is not emergency-locked.
    NotLocked,
    /// The asset record was already soft-deleted.
    RWAAlreadyDeleted,
    /// The claim record does not belong to this estate.
    InvalidClaimRecord,
    /// The asset record does not belong to this estate, or its number
    /// does not match.
    InvalidRWA,
    /// Some beneficiary has not claimed yet, so the estate cannot close.
    NotAllClaimed,
    /// Tokens and non-fungibles open up only after the inheritance share
    /// was claimed.
    MustClaimInheritanceFirst,
    /// This token kind was already claimed by this beneficiary.
    TokenAlreadyClaimed,
    /// This non-fungible was already claimed by this beneficiary.
    NFTAlreadyClaimed,
    /// The estate must hold exactly one unit of the non-fungible.
    InvalidNFTAmount,
    /// The estate has not sat claimable for the recovery dwell period.
    RecoveryTooEarly,
    /// The recovery was already executed; it is terminal.
    RecoveryAlreadyExecuted,
    /// The recovery delay has not yet expired.
    RecoveryNotReady,
    /// The estate already carries a joint account.
    JointAccountAlreadyExists,
    /// The human profit share must lie in 50 ..= 100.
    InvalidProfitShare,
    /// The emergency-withdrawal delay must lie in 24 ..= 168 hours.
    InvalidEmergencyDelay,
    /// The joint account was deactivated.
    JointAccountInactive,
    /// Only the two account holders may contribute.
    UnauthorizedContributor,
    /// Value has not risen above the profit high-water mark.
    NoProfitsToDistribute,
    /// An emergency withdrawal is already pending.
    EmergencyWithdrawalAlreadyInitiated,
    /// No emergency withdrawal is pending.
    EmergencyWithdrawalNotInitiated,
    /// The emergency-withdrawal delay has not yet expired.
    EmergencyWithdrawalNotReady,
}

} // verus!
