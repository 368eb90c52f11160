//! The delegation smart contract (DSC) that the liquid staking contract
//! delegates to: where it lives, and the calls it accepts.

use crate::amount::Amount;
use crate::error::Error;
use crate::token::Address;
use vstd::prelude::*;

verus! {

/// The endpoints of the delegation smart contract.
pub enum DscEndpoint {
    Delegate,
    Undelegate { egld_amount: Amount },
    Withdraw,
    ClaimRewards,
    AddNodes { bls_signatures_pair: Vec<(Vec<u8>, Vec<u8>)> },
    StakeNodes { keys: Vec<Vec<u8>> },
    UnStakeNodes { keys: Vec<Vec<u8>> },
    RemoveNodes { keys: Vec<Vec<u8>> },
    CorrectNodesStatus,
    GetUserActiveStake { user_address: Address },
    GetTotalActiveStake,
}

impl DscEndpoint {
    /// The name of each endpoint.
    pub open spec fn spec_endpoint_name(&self) -> Seq<char> {
        match self {
            DscEndpoint::Delegate => "delegate"@,
            DscEndpoint::Undelegate { .. } => "unDelegate"@,
            DscEndpoint::Withdraw => "withdraw"@,
            DscEndpoint::ClaimRewards => "claimRewards"@,
            DscEndpoint::AddNodes { .. } => "addNodes"@,
            DscEndpoint::StakeNodes { .. } => "stakeNodes"@,
            DscEndpoint::UnStakeNodes { .. } => "unStakeNodes"@,
            DscEndpoint::RemoveNodes { .. } => "removeNodes"@,
            DscEndpoint::CorrectNodesStatus => "correctNodesStatus"@,
            DscEndpoint::GetUserActiveStake { .. } => "getUserActiveStake"@,
            DscEndpoint::GetTotalActiveStake => "getTotalActiveStake"@,
        }
    }

    /// The name under which the delegation contract exposes the endpoint.
    pub fn endpoint_name(&self) -> (r: &'static str)
        ensures
            r@ == self.spec_endpoint_name(),
    {
        match self {
            DscEndpoint::Delegate => "delegate",
            DscEndpoint::Undelegate { .. } => "unDelegate",
            DscEndpoint::Withdraw => "withdraw",
            DscEndpoint::ClaimRewards => "claimRewards",
            DscEndpoint::AddNodes { .. } => "addNodes",
            DscEndpoint::StakeNodes { .. } => "stakeNodes",
            DscEndpoint::UnStakeNodes { .. } => "unStakeNodes",
            DscEndpoint::RemoveNodes { .. } => "removeNodes",
            DscEndpoint::CorrectNodesStatus => "correctNodesStatus",
            DscEndpoint::GetUserActiveStake { .. } => "getUserActiveStake",
            DscEndpoint::GetTotalActiveStake => "getTotalActiveStake",
        }
    }
}

/// The storage of the module that knows the delegation contract's address.
/// Whether an address belongs to a smart contract is a question for the
/// chain: callers pass its answer in.
pub struct DscStorage {
    pub dsc_address: Option<Address>,
}

impl DscStorage {
    /// Refuses an address that is not a smart contract.
    pub fn require_dsc_addr_valid(addr_is_sc: bool) -> (r: Result<(), Error>)
        ensures
            addr_is_sc <==> r is Ok,
            !addr_is_sc ==> r == Err::<(), Error>(Error::DscAddressNotSc),
    {
        if !addr_is_sc {
            return Err(Error::DscAddressNotSc);
        }
        Ok(())
    }

    /// Stores `addr` unless an address is stored already; refuses an address
    /// that is not a smart contract.
    pub fn set_dsc_address(&mut self, addr: &Address, addr_is_sc: bool) -> (r: Result<(), Error>)
        ensures
            !addr_is_sc ==> r == Err::<(), Error>(Error::DscAddressNotSc) && *final(self) == *old(self),
            addr_is_sc ==> r is Ok,
            addr_is_sc && old(self).dsc_address is None ==> (final(self).dsc_address matches Some(a) && a@ == addr@),
            addr_is_sc && old(self).dsc_address is Some ==> *final(self) == *old(self),
    {
        DscStorage::require_dsc_addr_valid(addr_is_sc)?;
        if self.dsc_address.is_none() {
            self.dsc_address = Some(addr.duplicate());
        }
        Ok(())
    }

    /// The stored address; `stored_is_sc` is the chain's answer for it.
    pub fn get_dsc_address(&self, stored_is_sc: bool) -> (r: Result<Address, Error>)
        ensures
            self.dsc_address is None ==> r == Err::<Address, Error>(Error::DscAddressNotSet),
            self.dsc_address is Some && !stored_is_sc ==> r == Err::<Address, Error>(Error::DscAddressNotSc),
            self.dsc_address is Some && stored_is_sc ==> (r matches Ok(a) && a@ == self.dsc_address->0@),
    {
        match &self.dsc_address {
            None => Err(Error::DscAddressNotSet),
            Some(a) => {
                DscStorage::require_dsc_addr_valid(stored_is_sc)?;
                Ok(a.duplicate())
            },
        }
    }

    /// The address to which calls of the delegation contract go.
    pub fn call_dsc(&self, stored_is_sc: bool) -> (r: Result<Address, Error>)
        ensures
            self.dsc_address is None ==> r == Err::<Address, Error>(Error::DscAddressNotSet),
            self.dsc_address is Some && !stored_is_sc ==> r == Err::<Address, Error>(Error::DscAddressNotSc),
            self.dsc_address is Some && stored_is_sc ==> (r matches Ok(a) && a@ == self.dsc_address->0@),
    {
        self.get_dsc_address(stored_is_sc)
    }
}

/// The calls that the delegation contract accepts.
pub trait DSCProxy {
    fn delegate(&self) -> DscEndpoint;
    fn undelegate(&self, egld_amount: Amount) -> DscEndpoint;
    fn withdraw(&self) -> DscEndpoint;
    fn claim_rewards(&self) -> DscEndpoint;
    fn add_nodes(&self, bls_signatures_pair: Vec<(Vec<u8>, Vec<u8>)>) -> DscEndpoint;
    fn stake_nodes(&self, keys: Vec<Vec<u8>>) -> DscEndpoint;
    fn un_stake_nodes(&self, keys: Vec<Vec<u8>>) -> DscEndpoint;
    fn remove_nodes(&self, keys: Vec<Vec<u8>>) -> DscEndpoint;
    fn correct_nodes_status(&self) -> DscEndpoint;
    fn get_user_active_stake(&self, user_address: Address) -> DscEndpoint;
    fn get_total_active_stake(&self) -> DscEndpoint;
}

/// Builds the calls of the delegation contract.
pub struct DscCalls;

impl DSCProxy for DscCalls {
    fn delegate(&self) -> (r: DscEndpoint)
        ensures
            r is Delegate,
    {
        DscEndpoint::Delegate
    }

    fn undelegate(&self, egld_amount: Amount) -> (r: DscEndpoint)
        ensures
            r matches DscEndpoint::Undelegate { egld_amount: a } && a@ == egld_amount@,
    {
        DscEndpoint::Undelegate { egld_amount }
    }

    fn withdraw(&self) -> (r: DscEndpoint)
        ensures
            r is Withdraw,
    {
        DscEndpoint::Withdraw
    }

    fn claim_rewards(&self) -> (r: DscEndpoint)
        ensures
            r is ClaimRewards,
    {
        DscEndpoint::ClaimRewards
    }

    fn add_nodes(&self, bls_signatures_pair: Vec<(Vec<u8>, Vec<u8>)>) -> (r: DscEndpoint)
        ensures
            r matches DscEndpoint::AddNodes { bls_signatures_pair: p } && p@ == bls_signatures_pair@,
    {
        DscEndpoint::AddNodes { bls_signatures_pair }
    }

    fn stake_nodes(&self, keys: Vec<Vec<u8>>) -> (r: DscEndpoint)
        ensures
            r matches DscEndpoint::StakeNodes { keys: k } && k@ == keys@,
    {
        DscEndpoint::StakeNodes { keys }
    }

    fn un_stake_nodes(&self, keys: Vec<Vec<u8>>) -> (r: DscEndpoint)
        ensures
            r matches DscEndpoint::UnStakeNodes { keys: k } && k@ == keys@,
    {
        DscEndpoint::UnStakeNodes { keys }
    }

    fn remove_nodes(&self, keys: Vec<Vec<u8>>) -> (r: DscEndpoint)
        ensures
            r matches DscEndpoint::RemoveNodes { keys: k } && k@ == keys@,
    {
        DscEndpoint::RemoveNodes { keys }
    }

    fn correct_nodes_status(&self) -> (r: DscEndpoint)
        ensures
            r is CorrectNodesStatus,
    {
        DscEndpoint::CorrectNodesStatus
    }

    fn get_user_active_stake(&self, user_address: Address) -> (r: DscEndpoint)
        ensures
            r matches DscEndpoint::GetUserActiveStake { user_address: a } && a@ == user_address@,
    {
        DscEndpoint::GetUserActiveStake { user_address }
    }

    fn get_total_active_stake(&self) -> (r: DscEndpoint)
        ensures
            r is GetTotalActiveStake,
    {
        DscEndpoint::GetTotalActiveStake
    }
}

/// The module that knows the delegation contract (see [`DscStorage`] for
/// what each method does).
pub trait DelegationModule {
    fn call_dsc(&self, stored_is_sc: bool) -> Result<Address, Error>;
    fn set_dsc_address(&mut self, addr: &Address, addr_is_sc: bool) -> Result<(), Error>;
    fn require_dsc_addr_valid(&self, addr_is_sc: bool) -> Result<(), Error>;
    fn get_dsc_address(&self, stored_is_sc: bool) -> Result<Address, Error>;
}

} // verus!
