//! The liquid staking token and the eGLD delegated against it.

use crate::amount::Amount;
use crate::error::Error;
use crate::storage_cache::StorageCache;
use crate::token::{Address, EsdtTokenPayment, TokenMapperState};
use vstd::prelude::*;

verus! {

/// A request to issue a fungible token and give this contract all its roles.
pub struct IssueRequest {
    pub issue_cost: Amount,
    pub token_display_name: Vec<u8>,
    pub token_ticker: Vec<u8>,
    pub num_decimals: usize,
}

/// The storage of the liquidity pool module.
pub struct LiquidityPool {
    /// The liquid staking token.
    pub ls_token: TokenMapperState,
    /// All eGLD ever sent along with added liquidity.
    pub delegated_egld: Amount,
}

/// The module that issues the liquid staking token and mints it against
/// added liquidity.
pub trait LiquidityPoolModule {
    /// Owner only: asks to issue the liquid staking token.
    fn register_ls_token(
        &mut self,
        caller: &Address,
        owner: &Address,
        payment_amount: Amount,
        token_display_name: Vec<u8>,
        token_ticker: Vec<u8>,
    ) -> Result<IssueRequest, Error>;

    /// Mints liquid staking tokens for added liquidity.
    fn pool_add_liquidity(&self, egld_staked: Amount, egld_sent: &Amount, storage_cache: &mut StorageCache) -> EsdtTokenPayment;
}

/// Refuses a caller that is not the contract's owner.
pub fn require_owner(caller: &Address, owner: &Address) -> (r: Result<(), Error>)
    ensures
        caller@ == owner@ <==> r is Ok,
        caller@ != owner@ ==> r == Err::<(), Error>(Error::OnlyOwner),
{
    if !caller.same(owner) {
        return Err(Error::OnlyOwner);
    }
    Ok(())
}

impl LiquidityPool {
    /// Owner only: asks to issue the liquid staking token with 18 decimals,
    /// paying `payment_amount` eGLD for it. The issue is then under way;
    /// a token that is issued or being issued is not issued again.
    pub fn register_ls_token(
        &mut self,
        caller: &Address,
        owner: &Address,
        payment_amount: Amount,
        token_display_name: Vec<u8>,
        token_ticker: Vec<u8>,
    ) -> (r: Result<IssueRequest, Error>)
        ensures
            caller@ != owner@ ==> r == Err::<IssueRequest, Error>(Error::OnlyOwner),
            caller@ == owner@ && old(self).ls_token is Pending ==> r == Err::<IssueRequest, Error>(Error::IssueAlreadyCalled),
            caller@ == owner@ && old(self).ls_token is Token ==> r == Err::<IssueRequest, Error>(Error::TokenIdAlreadySet),
            r is Err ==> *final(self) == *old(self),
            caller@ == owner@ && old(self).ls_token is NotSet ==> {
                &&& r matches Ok(req)
                &&& req.issue_cost@ == payment_amount@
                &&& req.token_display_name@ == token_display_name@
                &&& req.token_ticker@ == token_ticker@
                &&& req.num_decimals == 18
                &&& final(self).ls_token is Pending
                &&& final(self).delegated_egld == old(self).delegated_egld
            },
    {
        require_owner(caller, owner)?;
        match &self.ls_token {
            TokenMapperState::Pending => {
                return Err(Error::IssueAlreadyCalled);
            },
            TokenMapperState::Token(_) => {
                return Err(Error::TokenIdAlreadySet);
            },
            TokenMapperState::NotSet => {},
        }
        self.ls_token = TokenMapperState::Pending;
        Ok(IssueRequest {
            issue_cost: payment_amount,
            token_display_name,
            token_ticker,
            num_decimals: 18,
        })
    }

    /// Mints `egld_staked` liquid staking tokens and accounts `egld_sent`
    /// eGLD as delegated and pending delegation; returns the minted tokens.
    pub fn pool_add_liquidity(
        egld_staked: Amount,
        egld_sent: &Amount,
        storage_cache: &mut StorageCache,
    ) -> (r: EsdtTokenPayment)
        ensures
            r.token_identifier@ == old(storage_cache).ls_token_id@,
            r.token_nonce == 0,
            r.amount@ == egld_staked@,
            final(storage_cache).ls_token_id@ == old(storage_cache).ls_token_id@,
            final(storage_cache).ls_token_supply@ == old(storage_cache).ls_token_supply@ + egld_staked@,
            final(storage_cache).delegated_egld@ == old(storage_cache).delegated_egld@ + egld_sent@,
            final(storage_cache).pending_delegation@ == old(storage_cache).pending_delegation@ + egld_sent@,
            final(storage_cache).reward_per_share@ == old(storage_cache).reward_per_share@,
    {
        let ls_token = EsdtTokenPayment::new(storage_cache.ls_token_id.duplicate(), 0, egld_staked);
        storage_cache.ls_token_supply = storage_cache.ls_token_supply.add(&ls_token.amount);
        storage_cache.delegated_egld = storage_cache.delegated_egld.add(egld_sent);
        storage_cache.pending_delegation = storage_cache.pending_delegation.add(egld_sent);
        ls_token
    }
}

} // verus!
