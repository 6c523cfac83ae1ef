//! The beneficiary ledger: claim entries with percentage shares.
use vstd::prelude::*;

use crate::account::AccountId;

verus! {

/// One claim entry of an estate: who may claim, which share of the estate
/// they receive, and whether their inheritance share was already paid out.
/// The `claimed` flag only ever moves from `false` to `true`; recovery
/// resets the ledger by replacing it with an empty one.
#[derive(Clone, Copy, Debug)]
pub struct Beneficiary {
    pub address: AccountId,
    pub email_hash: [u8; 32],
    pub share_percentage: u8,
    pub claimed: bool,
    pub notification_sent: bool,
}

/// The mathematical sum of the share percentages of a ledger.
pub open spec fn shares_sum(s: Seq<Beneficiary>) -> int
    decreases s.len(),
{
    if s.len() == 0 {
        0
    } else {
        shares_sum(s.drop_last()) + s.last().share_percentage
    }
}

/// Shares are unsigned, so the sum of any ledger is non-negative.
pub proof fn lemma_shares_sum_nonneg(s: Seq<Beneficiary>)
    ensures
        shares_sum(s) >= 0,
    decreases s.len(),
{
    if s.len() > 0 {
        lemma_shares_sum_nonneg(s.drop_last());
    }
}

/// Replacing an entry by one with the same share leaves the sum unchanged;
/// in particular, marking an entry claimed does.
pub proof fn lemma_shares_sum_update(s: Seq<Beneficiary>, i: int, b: Beneficiary)
    requires
        0 <= i < s.len(),
        b.share_percentage == s[i].share_percentage,
    ensures
        shares_sum(s.update(i, b)) == shares_sum(s),
    decreases s.len(),
{
    if i == s.len() - 1 {
        assert(s.update(i, b).drop_last() =~= s.drop_last());
    } else {
        assert(s.update(i, b).drop_last() =~= s.drop_last().update(i, b));
        lemma_shares_sum_update(s.drop_last(), i, b);
    }
}

/// Every single share is bounded by the sum of the whole ledger; in
/// particular, in a ledger whose shares sum to 100 no entry exceeds 100.
pub proof fn lemma_share_le_sum(s: Seq<Beneficiary>, i: int)
    requires
        0 <= i < s.len(),
    ensures
        s[i].share_percentage <= shares_sum(s),
    decreases s.len(),
{
    lemma_shares_sum_nonneg(s.drop_last());
    if i < s.len() - 1 {
        lemma_share_le_sum(s.drop_last(), i);
    }
}

} // verus!
