//! The global registry: a monotonic counter that numbers estates.
use vstd::prelude::*;

verus! {

/// Issues each new estate its sequence number. The host stores one counter
/// record; creators serialize through the storage layer, so within the
/// counter itself an atomic increment-and-read is all there is.
#[derive(Clone, Copy, Debug)]
pub struct GlobalCounter {
    pub count: u64,
}

/// Sets up the registry with no estates issued yet.
pub fn initialize_global_counter() -> (counter: GlobalCounter)
    ensures
        counter.count == 0,
{
    GlobalCounter { count: 0 }
}

} // verus!
