//! A digital-estate inheritance vault: an owner's estate tracks activity
//! deadlines, a ledger of beneficiaries with percentage shares, registered
//! real-world-asset records, per-beneficiary claim records for native funds,
//! fungible tokens and non-fungible tokens, and a time-locked recovery path
//! that can replace a lost owner.
//!
//! The crate holds the decision and bookkeeping logic only. The host
//! environment owns the clock, the durable storage and the value transfers:
//! every operation takes the current time and the relevant balances as plain
//! arguments and reports the transfers to perform in its result.
use vstd::prelude::*;

pub mod account;
pub mod beneficiary;
pub mod claim;
pub mod errors;
pub mod estate;
pub mod joint;
pub mod laws;
pub mod recovery;
pub mod registry;
pub mod rwa;

verus! {

/// Smallest allowed owner-inactivity window: 24 hours in seconds.
pub const MIN_INACTIVITY_PERIOD: i64 = 24 * 60 * 60;

/// Largest allowed owner-inactivity window: 300 years in seconds.
pub const MAX_INACTIVITY_PERIOD: i64 = 300 * 365 * 24 * 60 * 60;

/// Smallest allowed grace window: 24 hours in seconds.
pub const MIN_GRACE_PERIOD: i64 = 24 * 60 * 60;

/// Largest allowed grace window: 90 days in seconds.
pub const MAX_GRACE_PERIOD: i64 = 90 * 24 * 60 * 60;

/// Upper bound on the number of beneficiaries of one estate.
pub const MAX_BENEFICIARIES: u8 = 10;

/// Fee charged by the host for creating an estate, in native units.
pub const ESTATE_FEE: u64 = 100_000_000;

/// Fee charged by the host for registering a real-world asset.
pub const RWA_FEE: u64 = 10_000_000;

/// Native balance that must stay behind in an estate as its storage reserve.
pub const MIN_RENT_BALANCE: u64 = 890880;

/// An estate must have sat claimable this long before recovery may start:
/// 30 days in seconds.
pub const RECOVERY_DWELL_PERIOD: i64 = 30 * 24 * 60 * 60;

/// Delay between initiating a recovery and the moment it may execute:
/// 7 days in seconds.
pub const RECOVERY_DELAY: i64 = 7 * 24 * 60 * 60;

/// Upper bound on every wall-clock reading the library accepts, far past any
/// realistic date; it keeps deadline arithmetic inside `i64`.
pub const MAX_TIMESTAMP: i64 = 1_000_000_000_000;

} // verus!
