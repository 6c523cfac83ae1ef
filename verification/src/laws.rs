//! The library's cross-cutting guarantees, written out and proved rather
//! than left implicit in the operation contracts they follow from.
use vstd::prelude::*;

use crate::account::AccountId;
use crate::beneficiary::{shares_sum, Beneficiary};
use crate::claim::{
    claim_inheritance_err, claim_inheritance_ok, claim_nft_err, claim_nft_ok, claim_token_err,
    claim_token_ok, close_estate_err, close_estate_ok, has_nft_claim, has_token_claim,
    mark_claimed, ClaimRecord, TokenClaim,
};
use crate::errors::EstateError;
use crate::estate::{
    trigger_inheritance_err, trigger_inheritance_ok, update_beneficiaries_ok, Estate,
};
use crate::recovery::{execute_recovery_err, execute_recovery_ok, Recovery};
use crate::RECOVERY_DELAY;

verus! {

/// Every beneficiary ledger that `update_beneficiaries` accepts holds at
/// most ten entries, and its share percentages sum to exactly 100.
pub proof fn law_accepted_ledger_shares(e: Estate, caller: AccountId, list: Seq<Beneficiary>)
    requires
        update_beneficiaries_ok(e, caller, list),
    ensures
        shares_sum(list) == 100,
        list.len() <= 10,
{
}

/// On an unfrozen, not yet claimable estate, `trigger_inheritance`
/// succeeds exactly when `now` lies strictly past
/// `last_active + inactivity_period + grace_period`: at the boundary
/// instant itself it still reports `NotYetClaimable`, one unit past it
/// succeeds.
pub proof fn law_trigger_inheritance_boundary(e: Estate, now: i64)
    requires
        e.wf(),
        !e.is_locked,
        !e.is_claimable,
    ensures
        now <= e.last_active + e.inactivity_period + e.grace_period ==> {
            &&& !trigger_inheritance_ok(e, now)
            &&& trigger_inheritance_err(e, now) == EstateError::NotYetClaimable
        },
        now > e.last_active + e.inactivity_period + e.grace_period ==> trigger_inheritance_ok(
            e,
            now,
        ),
{
}

/// Claiming the inheritance share is not idempotent: after a successful
/// claim has marked the entry, the same index claims again only to be
/// refused with `AlreadyClaimed`, whoever reads the ledger at whatever
/// later claimable moment.
pub proof fn law_claim_inheritance_not_idempotent(
    e: Estate,
    e2: Estate,
    caller: AccountId,
    index: u8,
)
    requires
        e.wf(),
        claim_inheritance_ok(e, caller, index),
        e2.beneficiaries@ == mark_claimed(e.beneficiaries@, index as int),
        e2.total_beneficiaries == e.total_beneficiaries,
        e2.is_claimable == e.is_claimable,
    ensures
        !claim_inheritance_ok(e2, caller, index),
        claim_inheritance_err(e2, caller, index) == EstateError::AlreadyClaimed,
{
}

/// One token kind pays out once: after a successful claim has noted the
/// kind in the record, the same kind is refused with
/// `TokenAlreadyClaimed`, while every other kind stands exactly where it
/// stood before.
pub proof fn law_claim_token_once(
    e: Estate,
    rec: ClaimRecord,
    rec2: ClaimRecord,
    caller: AccountId,
    index: u8,
    mint: AccountId,
    amount: u64,
)
    requires
        claim_token_ok(e, rec, caller, index, mint),
        rec2.tokens_claimed@ == rec.tokens_claimed@.push(TokenClaim { mint, amount }),
        rec2.beneficiary == rec.beneficiary,
        rec2.estate == rec.estate,
    ensures
        has_token_claim(rec2, mint),
        !claim_token_ok(e, rec2, caller, index, mint),
        claim_token_err(e, rec2, caller, index, mint) == EstateError::TokenAlreadyClaimed,
        forall|other: AccountId|
            other != mint ==> has_token_claim(rec2, other) == has_token_claim(rec, other),
        forall|other: AccountId|
            other != mint ==> claim_token_ok(e, rec2, caller, index, other) == claim_token_ok(
                e,
                rec,
                caller,
                index,
                other,
            ),
{
    let pushed = rec.tokens_claimed@.len() as int;
    assert(rec2.tokens_claimed@[pushed].mint == mint);
    assert forall|other: AccountId| other != mint implies has_token_claim(rec2, other)
        == has_token_claim(rec, other) by {
        if has_token_claim(rec2, other) {
            let i = choose|i: int|
                0 <= i < rec2.tokens_claimed@.len() && rec2.tokens_claimed@[i].mint == other;
            assert(i < pushed ==> rec.tokens_claimed@[i].mint == other);
        }
        if has_token_claim(rec, other) {
            let i = choose|i: int|
                0 <= i < rec.tokens_claimed@.len() && rec.tokens_claimed@[i].mint == other;
            assert(rec2.tokens_claimed@[i].mint == other);
        }
    }
}

/// One non-fungible pays out once: after a successful claim has noted the
/// identifier, the same identifier is refused with `NFTAlreadyClaimed`,
/// while every other identifier stands exactly where it stood before.
pub proof fn law_claim_nft_once(
    e: Estate,
    rec: ClaimRecord,
    rec2: ClaimRecord,
    caller: AccountId,
    index: u8,
    mint: AccountId,
    held: u64,
)
    requires
        claim_nft_ok(e, rec, caller, index, mint, held),
        rec2.nfts_claimed@ == rec.nfts_claimed@.push(mint),
        rec2.beneficiary == rec.beneficiary,
        rec2.estate == rec.estate,
    ensures
        has_nft_claim(rec2, mint),
        !claim_nft_ok(e, rec2, caller, index, mint, held),
        claim_nft_err(e, rec2, caller, index, mint, held) == EstateError::NFTAlreadyClaimed,
        forall|other: AccountId|
            other != mint ==> has_nft_claim(rec2, other) == has_nft_claim(rec, other),
        forall|other: AccountId, other_held: u64|
            other != mint ==> claim_nft_ok(e, rec2, caller, index, other, other_held)
                == claim_nft_ok(e, rec, caller, index, other, other_held),
{
    let pushed = rec.nfts_claimed@.len() as int;
    assert(rec2.nfts_claimed@[pushed] == mint);
    assert forall|other: AccountId| other != mint implies has_nft_claim(rec2, other)
        == has_nft_claim(rec, other) by {
        if has_nft_claim(rec2, other) {
            let i = choose|i: int|
                0 <= i < rec2.nfts_claimed@.len() && rec2.nfts_claimed@[i] == other;
            assert(i < pushed ==> rec.nfts_claimed@[i] == other);
        }
        if has_nft_claim(rec, other) {
            let i = choose|i: int| 0 <= i < rec.nfts_claimed@.len() && rec.nfts_claimed@[i] == other;
            assert(rec2.nfts_claimed@[i] == other);
        }
    }
}

/// A claim touches nothing but its own entry's flag: the marked entry
/// keeps its recipient and share, every other entry is untouched, and a
/// flag that was set stays set — it moves from `false` to `true` only,
/// and nothing short of a recovery, which replaces the whole ledger,
/// ever clears it.
pub proof fn law_mark_claimed_monotonic(s: Seq<Beneficiary>, index: int, j: int)
    requires
        0 <= index < s.len(),
        0 <= j < s.len(),
    ensures
        mark_claimed(s, index).len() == s.len(),
        mark_claimed(s, index)[index].claimed,
        mark_claimed(s, index)[index].address == s[index].address,
        mark_claimed(s, index)[index].share_percentage == s[index].share_percentage,
        j != index ==> mark_claimed(s, index)[j] == s[j],
        s[j].claimed ==> mark_claimed(s, index)[j].claimed,
{
}

/// An estate closes exactly when it is claimable and every one of its
/// beneficiaries has completed their inheritance claim; while any count is
/// short, closing reports `NotAllClaimed`.
pub proof fn law_close_estate_exact(e: Estate)
    ensures
        close_estate_ok(e) <==> (e.is_claimable && e.total_claims == e.total_beneficiaries),
        e.is_claimable && e.total_claims != e.total_beneficiaries ==> close_estate_err(e)
            == EstateError::NotAllClaimed,
{
}

/// The recovery time lock, both sides of it: a pending recovery refuses to
/// run with `RecoveryNotReady` strictly before the seven-day mark after
/// its initiation and runs from that mark on; and once run, it is terminal
/// — at every later moment it reports `RecoveryAlreadyExecuted`.
pub proof fn law_execute_recovery_window(rec: Recovery, rec2: Recovery, now: i64, later: i64)
    requires
        !rec.is_executed,
        rec2 == (Recovery { is_executed: true, ..rec }),
    ensures
        now < rec.execution_time ==> {
            &&& !execute_recovery_ok(rec, now)
            &&& execute_recovery_err(rec, now) == EstateError::RecoveryNotReady
        },
        now >= rec.execution_time ==> execute_recovery_ok(rec, now),
        !execute_recovery_ok(rec2, later),
        execute_recovery_err(rec2, later) == EstateError::RecoveryAlreadyExecuted,
{
}

} // verus!
