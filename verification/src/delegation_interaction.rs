//! The delegation proxy contract through which staking rewards are claimed.

use crate::error::Error;
use crate::token::Address;
use vstd::prelude::*;

verus! {

/// The endpoints of the delegation proxy that the liquid staking contract calls.
pub enum DelegationProxyEndpoint {
    /// Claims the staking rewards, which come back through `topUpRewards`.
    ClaimRewards,
}

impl DelegationProxyEndpoint {
    /// The name of each endpoint.
    pub open spec fn spec_endpoint_name(&self) -> Seq<char> {
        match self {
            DelegationProxyEndpoint::ClaimRewards => "claim_rewards"@,
        }
    }

    /// The name under which the delegation proxy exposes the endpoint.
    pub fn endpoint_name(&self) -> (r: &'static str)
        ensures
            r@ == self.spec_endpoint_name(),
    {
        match self {
            DelegationProxyEndpoint::ClaimRewards => "claim_rewards",
        }
    }
}

/// The storage of the module that knows the delegation proxy's address. Whether
/// an address belongs to a smart contract is the chain's answer, passed in.
pub struct DelegationProxyStorage {
    pub delegation_address: Option<Address>,
}

impl DelegationProxyStorage {
    /// Refuses an address that is not a smart contract.
    pub fn require_delegation_addr_valid(addr_is_sc: bool) -> (r: Result<(), Error>)
        ensures
            addr_is_sc <==> r is Ok,
            !addr_is_sc ==> r == Err::<(), Error>(Error::DelegationAddressNotSc),
    {
        if !addr_is_sc {
            return Err(Error::DelegationAddressNotSc);
        }
        Ok(())
    }

    /// Stores `addr` unless an address is stored already; refuses an address
    /// that is not a smart contract.
    pub fn set_delegation_address(&mut self, addr: &Address, addr_is_sc: bool) -> (r: Result<(), Error>)
        ensures
            !addr_is_sc ==> r == Err::<(), Error>(Error::DelegationAddressNotSc) && *final(self) == *old(self),
            addr_is_sc ==> r is Ok,
            addr_is_sc && old(self).delegation_address is None ==> (final(self).delegation_address matches Some(a) && a@ == addr@),
            addr_is_sc && old(self).delegation_address is Some ==> *final(self) == *old(self),
    {
        DelegationProxyStorage::require_delegation_addr_valid(addr_is_sc)?;
        if self.delegation_address.is_none() {
            self.delegation_address = Some(addr.duplicate());
        }
        Ok(())
    }

    /// The stored address; `stored_is_sc` is the chain's answer for it.
    pub fn get_delegation_address(&self, stored_is_sc: bool) -> (r: Result<Address, Error>)
        ensures
            self.delegation_address is None ==> r == Err::<Address, Error>(Error::DelegationAddressNotSet),
            self.delegation_address is Some && !stored_is_sc ==> r == Err::<Address, Error>(Error::DelegationAddressNotSc),
            self.delegation_address is Some && stored_is_sc ==> (r matches Ok(a) && a@ == self.delegation_address->0@),
    {
        match &self.delegation_address {
            None => Err(Error::DelegationAddressNotSet),
            Some(a) => {
                DelegationProxyStorage::require_delegation_addr_valid(stored_is_sc)?;
                Ok(a.duplicate())
            },
        }
    }

    /// The address to which calls of the delegation proxy go.
    pub fn call_delegation(&self, stored_is_sc: bool) -> (r: Result<Address, Error>)
        ensures
            self.delegation_address is None ==> r == Err::<Address, Error>(Error::DelegationAddressNotSet),
            self.delegation_address is Some && !stored_is_sc ==> r == Err::<Address, Error>(Error::DelegationAddressNotSc),
            self.delegation_address is Some && stored_is_sc ==> (r matches Ok(a) && a@ == self.delegation_address->0@),
    {
        self.get_delegation_address(stored_is_sc)
    }
}

/// The calls that the delegation proxy accepts.
pub trait DelegationProxy {
    fn claim_rewards(&self) -> DelegationProxyEndpoint;
}

/// Builds the calls of the delegation proxy.
pub struct DelegationProxyCalls;

impl DelegationProxy for DelegationProxyCalls {
    fn claim_rewards(&self) -> (r: DelegationProxyEndpoint)
        ensures
            r is ClaimRewards,
    {
        DelegationProxyEndpoint::ClaimRewards
    }
}

/// The module that knows the delegation proxy (see
/// [`DelegationProxyStorage`] for what each method does).
pub trait DelegationInteraction {
    fn call_delegation(&self, stored_is_sc: bool) -> Result<Address, Error>;
    fn set_delegation_address(&mut self, addr: &Address, addr_is_sc: bool) -> Result<(), Error>;
    fn require_delegation_addr_valid(&self, addr_is_sc: bool) -> Result<(), Error>;
    fn get_delegation_address(&self, stored_is_sc: bool) -> Result<Address, Error>;
}

} // verus!
