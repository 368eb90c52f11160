//! A snapshot of the liquid staking storage that an endpoint works on and
//! writes back when it is done.

use crate::amount::Amount;
use crate::error::Error;
use crate::liquid_staking::LiquidStaking;
use crate::token::{TokenId, TokenMapperState};
use vstd::prelude::*;

verus! {

/// The values an endpoint reads, and may change, of the liquid staking
/// storage.
pub struct StorageCache {
    pub ls_token_id: TokenId,
    pub ls_token_supply: Amount,
    pub delegated_egld: Amount,
    pub pending_delegation: Amount,
    pub reward_per_share: Amount,
}

impl StorageCache {
    /// Reads the storage; refused while the liquid staking token is not
    /// issued.
    pub fn new(sc_ref: &LiquidStaking) -> (r: Result<StorageCache, Error>)
        ensures
            !(sc_ref.pool.ls_token is Token) ==> r == Err::<StorageCache, Error>(Error::InvalidTokenId),
            sc_ref.pool.ls_token is Token ==> (r matches Ok(c) && c.reads(sc_ref)),
    {
        match &sc_ref.pool.ls_token {
            TokenMapperState::Token(id) => Ok(StorageCache {
                ls_token_id: id.duplicate(),
                ls_token_supply: sc_ref.funds.ls_token_supply.duplicate(),
                delegated_egld: sc_ref.pool.delegated_egld.duplicate(),
                pending_delegation: sc_ref.funds.pending_delegation.duplicate(),
                reward_per_share: sc_ref.funds.reward_per_share.duplicate(),
            }),
            _ => Err(Error::InvalidTokenId),
        }
    }

    /// The cache holds the values of `sc`.
    pub open spec fn reads(&self, sc: &LiquidStaking) -> bool {
        &&& sc.pool.ls_token matches TokenMapperState::Token(id) && self.ls_token_id@ == id@
        &&& self.ls_token_supply@ == sc.funds.ls_token_supply@
        &&& self.delegated_egld@ == sc.pool.delegated_egld@
        &&& self.pending_delegation@ == sc.funds.pending_delegation@
        &&& self.reward_per_share@ == sc.funds.reward_per_share@
    }

    /// Writes the four amounts back to the storage; everything else stays.
    pub fn commit(self, sc_ref: &mut LiquidStaking)
        ensures
            final(sc_ref).funds.ls_token_supply@ == self.ls_token_supply@,
            final(sc_ref).pool.delegated_egld@ == self.delegated_egld@,
            final(sc_ref).funds.pending_delegation@ == self.pending_delegation@,
            final(sc_ref).funds.reward_per_share@ == self.reward_per_share@,
            final(sc_ref).funds.rewards_reserve == old(sc_ref).funds.rewards_reserve,
            final(sc_ref).pool.ls_token == old(sc_ref).pool.ls_token,
            final(sc_ref).dsc == old(sc_ref).dsc,
            final(sc_ref).akf == old(sc_ref).akf,
            final(sc_ref).delegation == old(sc_ref).delegation,
            final(sc_ref).last_claim == old(sc_ref).last_claim,
            final(sc_ref).last_claim_epoch == old(sc_ref).last_claim_epoch,
            self.reads(old(sc_ref)) ==> {
                &&& final(sc_ref).funds.ls_token_supply@ == old(sc_ref).funds.ls_token_supply@
                &&& final(sc_ref).pool.delegated_egld@ == old(sc_ref).pool.delegated_egld@
                &&& final(sc_ref).funds.pending_delegation@ == old(sc_ref).funds.pending_delegation@
                &&& final(sc_ref).funds.reward_per_share@ == old(sc_ref).funds.reward_per_share@
            },
    {
        sc_ref.funds.ls_token_supply = self.ls_token_supply;
        sc_ref.pool.delegated_egld = self.delegated_egld;
        sc_ref.funds.pending_delegation = self.pending_delegation;
        sc_ref.funds.reward_per_share = self.reward_per_share;
    }
}

} // verus!
