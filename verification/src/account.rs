//! Identities handed in by the host's caller authentication.
use vstd::prelude::*;

verus! {

/// An authenticated account identity: the owner of an estate, a beneficiary,
/// a token kind or a non-fungible asset. The host authenticates callers and
/// addresses value transfers; the logic here only stores identities and
/// compares them for equality, so one opaque number carries everything the
/// rules read.
#[derive(Clone, Copy, Debug, PartialEq, Eq, Structural)]
pub struct AccountId {
    pub id: u64,
}

} // verus!
