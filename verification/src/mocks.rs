//! Stand-ins for the Aku factory and the delegation proxy used in
//! scenarios: they accept their calls and keep nothing.

use vstd::prelude::*;

verus! {

/// The Aku factory stand-in contract.
pub trait AkfMock {
    fn init(&self);

    /// Accepts eGLD for the NFT `_id`; nothing is recorded.
    fn add_uru_egld(&self, _id: u64);
}

/// The delegation proxy stand-in contract.
pub trait DelegationProxyMock {
    fn init(&self);

    /// Accepts a claim; nothing happens.
    fn claim_rewards(&self);
}

/// A contract with no storage, which the stand-ins run as.
pub struct MockContract;

impl AkfMock for MockContract {
    fn init(&self) {
    }

    fn add_uru_egld(&self, _id: u64) {
    }
}

impl DelegationProxyMock for MockContract {
    fn init(&self) {
    }

    fn claim_rewards(&self) {
    }
}

} // verus!
