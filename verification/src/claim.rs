//! The claim engine: once an estate is claimable, each beneficiary first
//! draws their proportional share of the native balance, which opens their
//! claim record, and may then draw their share of each fungible token and
//! any single-unit non-fungible the estate holds, each asset at most once.
//!
//! The engine computes amounts and keeps the books; the host performs the
//! actual transfers, atomically with the bookkeeping, and reports balances
//! in as plain arguments.
use vstd::prelude::*;

use crate::account::AccountId;
use crate::beneficiary::{lemma_shares_sum_update, Beneficiary};
use crate::errors::EstateError;
use crate::estate::Estate;
use crate::{MAX_TIMESTAMP, MIN_RENT_BALANCE};

verus! {

/// One fungible-token payout noted in a claim record.
#[derive(Clone, Copy, Debug)]
pub struct TokenClaim {
    pub mint: AccountId,
    pub amount: u64,
}

/// The per-beneficiary ledger of what was already paid out: the native
/// amount and share snapshot from the first claim, then one entry per
/// token kind and per non-fungible drawn since. Its append-only lists are
/// what makes every double claim detectable.
#[derive(Clone, Debug)]
pub struct ClaimRecord {
    pub estate: AccountId,
    pub beneficiary: AccountId,
    pub claim_time: i64,
    pub sol_amount: u64,
    pub share_percentage: u8,
    pub tokens_claimed: Vec<TokenClaim>,
    pub nfts_claimed: Vec<AccountId>,
}

/// Whether the record already notes a payout of this token kind.
pub open spec fn has_token_claim(r: ClaimRecord, mint: AccountId) -> bool {
    exists|i: int| 0 <= i < r.tokens_claimed@.len() && r.tokens_claimed@[i].mint == mint
}

/// Whether the record already notes a payout of this non-fungible.
pub open spec fn has_nft_claim(r: ClaimRecord, mint: AccountId) -> bool {
    exists|i: int| 0 <= i < r.nfts_claimed@.len() && r.nfts_claimed@[i] == mint
}

impl ClaimRecord {
    /// What opening establishes and every payout preserves: the share
    /// snapshot is a percentage and no asset appears twice.
    pub open spec fn wf(self) -> bool {
        &&& self.share_percentage <= 100
        &&& forall|i: int, j: int|
            0 <= i < j < self.tokens_claimed@.len()
                ==> self.tokens_claimed@[i].mint != self.tokens_claimed@[j].mint
        &&& forall|i: int, j: int|
            0 <= i < j < self.nfts_claimed@.len()
                ==> self.nfts_claimed@[i] != self.nfts_claimed@[j]
    }
}

/// The part of the native balance open to distribution: everything above
/// the storage reserve, saturating at zero below it.
pub open spec fn distributable_balance(balance: u64) -> int {
    if balance >= MIN_RENT_BALANCE {
        balance - MIN_RENT_BALANCE
    } else {
        0
    }
}

/// A beneficiary's cut of an amount: `floor(amount * share / 100)`.
pub open spec fn proportional_share(amount: int, share: u8) -> int {
    amount * share / 100
}

/// Computes `floor(amount * share / 100)` with a wide intermediate, so the
/// product cannot overflow for any balance.
pub(crate) fn proportional_amount(amount: u64, share: u8) -> (r: u64)
    requires
        share <= 100,
    ensures
        r == proportional_share(amount as int, share),
        r <= amount,
{
    proof {
        assert((amount as int) * (share as int) <= (amount as int) * 100 && 0 <= (amount as int)
            * (share as int) && (amount as int) * (share as int) / 100 <= amount as int)
            by (nonlinear_arith)
            requires
                0 <= amount as int,
                0 <= share as int <= 100,
        ;
    }
    let wide: u128 = (amount as u128) * (share as u128) / 100;
    wide as u64
}

/// Whether a beneficiary's claim of their inheritance share may go
/// through: the estate is claimable, the index names an entry, the caller
/// is that entry's recipient, and the entry is still unclaimed.
pub open spec fn claim_inheritance_ok(e: Estate, caller: AccountId, index: u8) -> bool {
    &&& e.is_claimable
    &&& index < e.total_beneficiaries
    &&& e.beneficiaries@[index as int].address == caller
    &&& !e.beneficiaries@[index as int].claimed
}

/// The refusal a failing inheritance claim reports.
pub open spec fn claim_inheritance_err(e: Estate, caller: AccountId, index: u8) -> EstateError {
    if !e.is_claimable {
        EstateError::NotClaimable
    } else if index >= e.total_beneficiaries {
        EstateError::InvalidBeneficiaryIndex
    } else if e.beneficiaries@[index as int].address != caller {
        EstateError::UnauthorizedBeneficiary
    } else {
        EstateError::AlreadyClaimed
    }
}

/// The ledger after an entry is marked claimed.
pub open spec fn mark_claimed(s: Seq<Beneficiary>, index: int) -> Seq<Beneficiary> {
    s.update(index, Beneficiary { claimed: true, ..s[index] })
}

/// Marks a beneficiary's inheritance share claimed without paying anything
/// out: the bare bookkeeping form of the claim, kept for hosts that settle
/// value off-ledger. It is not idempotent: once the flag is set, a second
/// call reports `AlreadyClaimed`.
pub fn claim_inheritance(estate: &mut Estate, caller: AccountId, beneficiary_index: u8) -> (r:
    Result<(), EstateError>)
    requires
        old(estate).wf(),
    ensures
        final(estate).wf(),
        r is Ok <==> claim_inheritance_ok(*old(estate), caller, beneficiary_index),
        claim_inheritance_ok(*old(estate), caller, beneficiary_index) ==> {
            &&& final(estate).beneficiaries@ == mark_claimed(
                old(estate).beneficiaries@,
                beneficiary_index as int,
            )
            &&& *final(estate) == (Estate {
                beneficiaries: final(estate).beneficiaries,
                ..*old(estate)
            })
        },
        !claim_inheritance_ok(*old(estate), caller, beneficiary_index)
            ==> r == Err::<(), EstateError>(
                claim_inheritance_err(*old(estate), caller, beneficiary_index),
            ) && *final(estate) == *old(estate),
{
    if !estate.is_claimable {
        return Err(EstateError::NotClaimable);
    }
    if beneficiary_index >= estate.total_beneficiaries {
        return Err(EstateError::InvalidBeneficiaryIndex);
    }
    let index = beneficiary_index as usize;
    if estate.beneficiaries[index].address != caller {
        return Err(EstateError::UnauthorizedBeneficiary);
    }
    if estate.beneficiaries[index].claimed {
        return Err(EstateError::AlreadyClaimed);
    }
    let mut entry = estate.beneficiaries[index];
    entry.claimed = true;
    proof {
        lemma_shares_sum_update(
            estate.beneficiaries@,
            index as int,
            Beneficiary { claimed: true, ..estate.beneficiaries@[index as int] },
        );
    }
    estate.beneficiaries.set(index, entry);
    Ok(())
}

/// Pays a beneficiary their inheritance share of the native balance and
/// opens their claim record.
///
/// Succeeds under exactly the conditions of `claim_inheritance`; the payout
/// is `floor((balance - reserve) * share / 100)`, saturating at zero below
/// the reserve, computed in wide arithmetic. The host must transfer exactly
/// the record's `sol_amount` to the beneficiary in the same atomic step
/// that stores the record and this estate update. Not idempotent: the
/// second call for the same index reports `AlreadyClaimed`.
pub fn claim_inheritance_v2(
    estate: &mut Estate,
    caller: AccountId,
    beneficiary_index: u8,
    estate_balance: u64,
    now: i64,
) -> (r: Result<ClaimRecord, EstateError>)
    requires
        old(estate).wf(),
        0 <= now <= MAX_TIMESTAMP,
        old(estate).total_claims < u8::MAX,
    ensures
        final(estate).wf(),
        r is Ok <==> claim_inheritance_ok(*old(estate), caller, beneficiary_index),
        r matches Ok(record) ==> {
            &&& record.wf()
            &&& record.estate == old(estate).estate_id
            &&& record.beneficiary == caller
            &&& record.claim_time == now
            &&& record.share_percentage == old(estate).beneficiaries@[beneficiary_index as int]
                .share_percentage
            &&& record.sol_amount == proportional_share(
                distributable_balance(estate_balance),
                record.share_percentage,
            )
            &&& record.tokens_claimed@ == Seq::<TokenClaim>::empty()
            &&& record.nfts_claimed@ == Seq::<AccountId>::empty()
            &&& final(estate).beneficiaries@ == mark_claimed(
                old(estate).beneficiaries@,
                beneficiary_index as int,
            )
            &&& final(estate).total_claims == old(estate).total_claims + 1
            &&& *final(estate) == (Estate {
                beneficiaries: final(estate).beneficiaries,
                total_claims: final(estate).total_claims,
                ..*old(estate)
            })
        },
        !claim_inheritance_ok(*old(estate), caller, beneficiary_index)
            ==> r == Err::<ClaimRecord, EstateError>(
                claim_inheritance_err(*old(estate), caller, beneficiary_index),
            ) && *final(estate) == *old(estate),
{
    if !estate.is_claimable {
        return Err(EstateError::NotClaimable);
    }
    if beneficiary_index >= estate.total_beneficiaries {
        return Err(EstateError::InvalidBeneficiaryIndex);
    }
    let index = beneficiary_index as usize;
    if estate.beneficiaries[index].address != caller {
        return Err(EstateError::UnauthorizedBeneficiary);
    }
    if estate.beneficiaries[index].claimed {
        return Err(EstateError::AlreadyClaimed);
    }
    let share_percentage = estate.beneficiaries[index].share_percentage;
    let transferable: u64 = if estate_balance >= MIN_RENT_BALANCE {
        estate_balance - MIN_RENT_BALANCE
    } else {
        0
    };
    let sol_amount = proportional_amount(transferable, share_percentage);
    let record = ClaimRecord {
        estate: estate.estate_id,
        beneficiary: caller,
        claim_time: now,
        sol_amount,
        share_percentage,
        tokens_claimed: Vec::new(),
        nfts_claimed: Vec::new(),
    };
    let mut entry = estate.beneficiaries[index];
    entry.claimed = true;
    proof {
        lemma_shares_sum_update(
            estate.beneficiaries@,
            index as int,
            Beneficiary { claimed: true, ..estate.beneficiaries@[index as int] },
        );
    }
    estate.beneficiaries.set(index, entry);
    estate.total_claims = estate.total_claims + 1;
    Ok(record)
}

/// Scans a record's token payouts for a given kind.
fn find_token_claim(tokens: &Vec<TokenClaim>, mint: AccountId) -> (found: bool)
    ensures
        found == exists|i: int| 0 <= i < tokens@.len() && tokens@[i].mint == mint,
{
    let mut i: usize = 0;
    while i < tokens.len()
        invariant
            i <= tokens@.len(),
            forall|j: int| 0 <= j < i ==> tokens@[j].mint != mint,
        decreases tokens@.len() - i,
    {
        if tokens[i].mint == mint {
            return true;
        }
        i = i + 1;
    }
    false
}

/// Scans a record's non-fungible payouts for a given identifier.
fn find_nft_claim(nfts: &Vec<AccountId>, mint: AccountId) -> (found: bool)
    ensures
        found == exists|i: int| 0 <= i < nfts@.len() && nfts@[i] == mint,
{
    let mut i: usize = 0;
    while i < nfts.len()
        invariant
            i <= nfts@.len(),
            forall|j: int| 0 <= j < i ==> nfts@[j] != mint,
        decreases nfts@.len() - i,
    {
        if nfts[i] == mint {
            return true;
        }
        i = i + 1;
    }
    false
}

/// Whether a beneficiary's claim of one token kind may go through: the
/// record belongs to this caller and estate, the estate is claimable, the
/// index names this caller's entry, the inheritance share was claimed
/// first, and this token kind was not drawn before.
pub open spec fn claim_token_ok(
    e: Estate,
    rec: ClaimRecord,
    caller: AccountId,
    index: u8,
    mint: AccountId,
) -> bool {
    &&& rec.beneficiary == caller
    &&& rec.estate == e.estate_id
    &&& e.is_claimable
    &&& index < e.total_beneficiaries
    &&& e.beneficiaries@[index as int].address == caller
    &&& e.beneficiaries@[index as int].claimed
    &&& !has_token_claim(rec, mint)
}

/// The refusal a failing token claim reports; the record's linkage is
/// checked before the estate's state, as the host validates the handed-in
/// record first.
pub open spec fn claim_token_err(
    e: Estate,
    rec: ClaimRecord,
    caller: AccountId,
    index: u8,
    mint: AccountId,
) -> EstateError {
    if rec.beneficiary != caller {
        EstateError::UnauthorizedBeneficiary
    } else if rec.estate != e.estate_id {
        EstateError::InvalidClaimRecord
    } else if !e.is_claimable {
        EstateError::NotClaimable
    } else if index >= e.total_beneficiaries {
        EstateError::InvalidBeneficiaryIndex
    } else if e.beneficiaries@[index as int].address != caller {
        EstateError::UnauthorizedBeneficiary
    } else if !e.beneficiaries@[index as int].claimed {
        EstateError::MustClaimInheritanceFirst
    } else {
        EstateError::TokenAlreadyClaimed
    }
}

/// Pays a beneficiary their share of one fungible-token holding, at most
/// once per token kind.
///
/// The payout is `floor(token_balance * share / 100)`; the host transfers
/// exactly the returned amount from the estate's token holding in the same
/// atomic step that stores the updated record. A positive payout is noted
/// in the record, which is what refuses the same kind a second time with
/// `TokenAlreadyClaimed`; distinct kinds remain claimable. A zero payout
/// leaves the record as it was.
pub fn claim_token(
    estate: &Estate,
    record: &mut ClaimRecord,
    caller: AccountId,
    beneficiary_index: u8,
    token_mint: AccountId,
    estate_token_balance: u64,
) -> (r: Result<u64, EstateError>)
    requires
        estate.wf(),
        old(record).wf(),
    ensures
        final(record).wf(),
        r is Ok <==> claim_token_ok(*estate, *old(record), caller, beneficiary_index, token_mint),
        r matches Ok(amount) ==> {
            &&& amount == proportional_share(
                estate_token_balance as int,
                estate.beneficiaries@[beneficiary_index as int].share_percentage,
            )
            &&& amount > 0 ==> final(record).tokens_claimed@ == old(record).tokens_claimed@.push(
                TokenClaim { mint: token_mint, amount },
            )
            &&& amount == 0 ==> *final(record) == *old(record)
            &&& *final(record) == (ClaimRecord {
                tokens_claimed: final(record).tokens_claimed,
                ..*old(record)
            })
        },
        !claim_token_ok(*estate, *old(record), caller, beneficiary_index, token_mint)
            ==> r == Err::<u64, EstateError>(
                claim_token_err(*estate, *old(record), caller, beneficiary_index, token_mint),
            ) && *final(record) == *old(record),
{
    if record.beneficiary != caller {
        return Err(EstateError::UnauthorizedBeneficiary);
    }
    if record.estate != estate.estate_id {
        return Err(EstateError::InvalidClaimRecord);
    }
    if !estate.is_claimable {
        return Err(EstateError::NotClaimable);
    }
    if beneficiary_index >= estate.total_beneficiaries {
        return Err(EstateError::InvalidBeneficiaryIndex);
    }
    let index = beneficiary_index as usize;
    if estate.beneficiaries[index].address != caller {
        return Err(EstateError::UnauthorizedBeneficiary);
    }
    if !estate.beneficiaries[index].claimed {
        return Err(EstateError::MustClaimInheritanceFirst);
    }
    if find_token_claim(&record.tokens_claimed, token_mint) {
        return Err(EstateError::TokenAlreadyClaimed);
    }
    let share_percentage = estate.beneficiaries[index].share_percentage;
    let token_share = proportional_amount(estate_token_balance, share_percentage);
    if token_share > 0 {
        record.tokens_claimed.push(TokenClaim { mint: token_mint, amount: token_share });
    }
    Ok(token_share)
}

/// Whether a beneficiary's claim of one non-fungible may go through: as
/// for tokens, and the estate must hold exactly one unit of it.
pub open spec fn claim_nft_ok(
    e: Estate,
    rec: ClaimRecord,
    caller: AccountId,
    index: u8,
    mint: AccountId,
    nft_amount: u64,
) -> bool {
    &&& rec.beneficiary == caller
    &&& rec.estate == e.estate_id
    &&& e.is_claimable
    &&& index < e.total_beneficiaries
    &&& e.beneficiaries@[index as int].address == caller
    &&& e.beneficiaries@[index as int].claimed
    &&& !has_nft_claim(rec, mint)
    &&& nft_amount == 1
}

/// The refusal a failing non-fungible claim reports.
pub open spec fn claim_nft_err(
    e: Estate,
    rec: ClaimRecord,
    caller: AccountId,
    index: u8,
    mint: AccountId,
    nft_amount: u64,
) -> EstateError {
    if rec.beneficiary != caller {
        EstateError::UnauthorizedBeneficiary
    } else if rec.estate != e.estate_id {
        EstateError::InvalidClaimRecord
    } else if !e.is_claimable {
        EstateError::NotClaimable
    } else if index >= e.total_beneficiaries {
        EstateError::InvalidBeneficiaryIndex
    } else if e.beneficiaries@[index as int].address != caller {
        EstateError::UnauthorizedBeneficiary
    } else if !e.beneficiaries@[index as int].claimed {
        EstateError::MustClaimInheritanceFirst
    } else if has_nft_claim(rec, mint) {
        EstateError::NFTAlreadyClaimed
    } else {
        EstateError::InvalidNFTAmount
    }
}

/// Hands a beneficiary one non-fungible held by the estate, at most once
/// per identifier.
///
/// The estate's holding of that identifier must be exactly one unit; the
/// host transfers that single unit in the same atomic step that stores the
/// updated record. The noted identifier is what refuses the same one a
/// second time with `NFTAlreadyClaimed`; distinct identifiers remain
/// claimable.
pub fn claim_nft(
    estate: &Estate,
    record: &mut ClaimRecord,
    caller: AccountId,
    beneficiary_index: u8,
    nft_mint: AccountId,
    estate_nft_amount: u64,
) -> (r: Result<(), EstateError>)
    requires
        estate.wf(),
        old(record).wf(),
    ensures
        final(record).wf(),
        r is Ok <==> claim_nft_ok(
            *estate,
            *old(record),
            caller,
            beneficiary_index,
            nft_mint,
            estate_nft_amount,
        ),
        r is Ok ==> {
            &&& final(record).nfts_claimed@ == old(record).nfts_claimed@.push(nft_mint)
            &&& *final(record) == (ClaimRecord {
                nfts_claimed: final(record).nfts_claimed,
                ..*old(record)
            })
        },
        !claim_nft_ok(*estate, *old(record), caller, beneficiary_index, nft_mint, estate_nft_amount)
            ==> r == Err::<(), EstateError>(
                claim_nft_err(
                    *estate,
                    *old(record),
                    caller,
                    beneficiary_index,
                    nft_mint,
                    estate_nft_amount,
                ),
            ) && *final(record) == *old(record),
{
    if record.beneficiary != caller {
        return Err(EstateError::UnauthorizedBeneficiary);
    }
    if record.estate != estate.estate_id {
        return Err(EstateError::InvalidClaimRecord);
    }
    if !estate.is_claimable {
        return Err(EstateError::NotClaimable);
    }
    if beneficiary_index >= estate.total_beneficiaries {
        return Err(EstateError::InvalidBeneficiaryIndex);
    }
    let index = beneficiary_index as usize;
    if estate.beneficiaries[index].address != caller {
        return Err(EstateError::UnauthorizedBeneficiary);
    }
    if !estate.beneficiaries[index].claimed {
        return Err(EstateError::MustClaimInheritanceFirst);
    }
    if find_nft_claim(&record.nfts_claimed, nft_mint) {
        return Err(EstateError::NFTAlreadyClaimed);
    }
    if estate_nft_amount != 1 {
        return Err(EstateError::InvalidNFTAmount);
    }
    record.nfts_claimed.push(nft_mint);
    Ok(())
}

/// Whether the estate may close: it is claimable and every beneficiary has
/// drawn their inheritance share.
pub open spec fn close_estate_ok(e: Estate) -> bool {
    &&& e.is_claimable
    &&& e.total_claims == e.total_beneficiaries
}

/// The refusal a failing close reports.
pub open spec fn close_estate_err(e: Estate) -> EstateError {
    if !e.is_claimable {
        EstateError::NotClaimable
    } else {
        EstateError::NotAllClaimed
    }
}

/// Clears an estate for release: succeeds exactly when it is claimable and
/// its completed-claims count has reached its beneficiary count, and fails
/// with `NotAllClaimed` while any beneficiary is short. On success the
/// host releases the estate's storage and refunds its reservation.
pub fn close_estate(estate: &Estate) -> (r: Result<(), EstateError>)
    ensures
        r is Ok <==> close_estate_ok(*estate),
        !close_estate_ok(*estate) ==> r == Err::<(), EstateError>(close_estate_err(*estate)),
{
    if !estate.is_claimable {
        return Err(EstateError::NotClaimable);
    }
    if estate.total_claims != estate.total_beneficiaries {
        return Err(EstateError::NotAllClaimed);
    }
    Ok(())
}

} // verus!
