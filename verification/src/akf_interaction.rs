//! The Aku factory contract (AKF) to which the Uru share of rewards goes.

use crate::error::Error;
use crate::token::Address;
use vstd::prelude::*;

verus! {

/// The endpoints of the Aku factory that the liquid staking contract calls.
pub enum AkfEndpoint {
    /// Credits the eGLD sent along to the Aku NFT `id`.
    AddUruEgld { id: u64 },
}

impl AkfEndpoint {
    /// The name of each endpoint.
    pub open spec fn spec_endpoint_name(&self) -> Seq<char> {
        match self {
            AkfEndpoint::AddUruEgld { .. } => "add_uru_egld"@,
        }
    }

    /// The name under which the Aku factory exposes the endpoint.
    pub fn endpoint_name(&self) -> (r: &'static str)
        ensures
            r@ == self.spec_endpoint_name(),
    {
        match self {
            AkfEndpoint::AddUruEgld { .. } => "add_uru_egld",
        }
    }
}

/// The storage of the module that knows the Aku factory's address. Whether
/// an address belongs to a smart contract is the chain's answer, passed in.
pub struct AkfStorage {
    pub akf_address: Option<Address>,
}

impl AkfStorage {
    /// Refuses an address that is not a smart contract.
    pub fn require_akf_addr_valid(addr_is_sc: bool) -> (r: Result<(), Error>)
        ensures
            addr_is_sc <==> r is Ok,
            !addr_is_sc ==> r == Err::<(), Error>(Error::AkfAddressNotSc),
    {
        if !addr_is_sc {
            return Err(Error::AkfAddressNotSc);
        }
        Ok(())
    }

    /// Stores `addr` unless an address is stored already; refuses an address
    /// that is not a smart contract.
    pub fn set_akf_address(&mut self, addr: &Address, addr_is_sc: bool) -> (r: Result<(), Error>)
        ensures
            !addr_is_sc ==> r == Err::<(), Error>(Error::AkfAddressNotSc) && *final(self) == *old(self),
            addr_is_sc ==> r is Ok,
            addr_is_sc && old(self).akf_address is None ==> (final(self).akf_address matches Some(a) && a@ == addr@),
            addr_is_sc && old(self).akf_address is Some ==> *final(self) == *old(self),
    {
        AkfStorage::require_akf_addr_valid(addr_is_sc)?;
        if self.akf_address.is_none() {
            self.akf_address = Some(addr.duplicate());
        }
        Ok(())
    }

    /// The stored address; `stored_is_sc` is the chain's answer for it.
    pub fn get_akf_address(&self, stored_is_sc: bool) -> (r: Result<Address, Error>)
        ensures
            self.akf_address is None ==> r == Err::<Address, Error>(Error::AkfAddressNotSet),
            self.akf_address is Some && !stored_is_sc ==> r == Err::<Address, Error>(Error::AkfAddressNotSc),
            self.akf_address is Some && stored_is_sc ==> (r matches Ok(a) && a@ == self.akf_address->0@),
    {
        match &self.akf_address {
            None => Err(Error::AkfAddressNotSet),
            Some(a) => {
                AkfStorage::require_akf_addr_valid(stored_is_sc)?;
                Ok(a.duplicate())
            },
        }
    }

    /// The address to which calls of the Aku factory go.
    pub fn call_akf(&self, stored_is_sc: bool) -> (r: Result<Address, Error>)
        ensures
            self.akf_address is None ==> r == Err::<Address, Error>(Error::AkfAddressNotSet),
            self.akf_address is Some && !stored_is_sc ==> r == Err::<Address, Error>(Error::AkfAddressNotSc),
            self.akf_address is Some && stored_is_sc ==> (r matches Ok(a) && a@ == self.akf_address->0@),
    {
        self.get_akf_address(stored_is_sc)
    }
}

/// The calls that the Aku factory accepts.
pub trait AkfProxy {
    fn add_uru_egld(&self, id: u64) -> AkfEndpoint;
}

/// Builds the calls of the Aku factory.
pub struct AkfCalls;

impl AkfProxy for AkfCalls {
    fn add_uru_egld(&self, id: u64) -> (r: AkfEndpoint)
        ensures
            r == (AkfEndpoint::AddUruEgld { id }),
    {
        AkfEndpoint::AddUruEgld { id }
    }
}

/// The module that knows the Aku factory (see [`AkfStorage`] for what each
/// method does).
pub trait AkfInteraction {
    fn call_akf(&self, stored_is_sc: bool) -> Result<Address, Error>;
    fn set_akf_address(&mut self, addr: &Address, addr_is_sc: bool) -> Result<(), Error>;
    fn require_akf_addr_valid(&self, addr_is_sc: bool) -> Result<(), Error>;
    fn get_akf_address(&self, stored_is_sc: bool) -> Result<Address, Error>;
}

} // verus!
