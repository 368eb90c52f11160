//! The reward funds of the liquid staking contract.

use crate::amount::Amount;
use vstd::prelude::*;

verus! {

/// The fixed-point scale of the reward per share.
pub const DIVISION_SAFTETY_CONST: u64 = 1_000_000_000;

/// The storage of the funds module.
pub struct Funds {
    /// eGLD received and not yet delegated.
    pub pending_delegation: Amount,
    /// eGLD set aside to pay rewards.
    pub rewards_reserve: Amount,
    /// The supply of the liquid staking token.
    pub ls_token_supply: Amount,
    /// Accumulated reward per liquid staking token, scaled by
    /// `DIVISION_SAFTETY_CONST`.
    pub reward_per_share: Amount,
}

/// The module that takes reward top-ups.
pub trait FundsModule {
    /// Accounts a top-up of `reward_increase` eGLD of rewards.
    fn top_up_rewards(&mut self, reward_increase: &Amount);
}

/// The increase of the reward per share that a top-up of `reward` brings
/// when `supply` tokens share it.
pub open spec fn spec_rps_increase(reward: nat, supply: nat) -> nat {
    reward * (DIVISION_SAFTETY_CONST as nat) / supply
}

impl Funds {
    /// Accounts a top-up of `reward_increase` eGLD of rewards: where both the
    /// top-up and the token supply are non-zero, the reward per share rises
    /// by the top-up per token and the reserve by the top-up; otherwise
    /// nothing changes.
    pub fn top_up_rewards(&mut self, reward_increase: &Amount)
        ensures
            final(self).pending_delegation@ == old(self).pending_delegation@,
            final(self).ls_token_supply@ == old(self).ls_token_supply@,
            (reward_increase@ > 0 && old(self).ls_token_supply@ > 0) ==> {
                &&& final(self).reward_per_share@ == old(self).reward_per_share@
                    + spec_rps_increase(reward_increase@, old(self).ls_token_supply@)
                &&& final(self).rewards_reserve@ == old(self).rewards_reserve@ + reward_increase@
            },
            !(reward_increase@ > 0 && old(self).ls_token_supply@ > 0) ==> {
                &&& final(self).reward_per_share@ == old(self).reward_per_share@
                &&& final(self).rewards_reserve@ == old(self).rewards_reserve@
            },
    {
        let total_delegated = &self.ls_token_supply;
        if !reward_increase.is_zero() && !total_delegated.is_zero() {
            let rps_increase = reward_increase.mul_u64(DIVISION_SAFTETY_CONST).div(total_delegated);
            self.reward_per_share = self.reward_per_share.add(&rps_increase);
            self.rewards_reserve = self.rewards_reserve.add(reward_increase);
        }
    }
}

} // verus!
