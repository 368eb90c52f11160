//! How a claimed staking reward is computed and shared.

use crate::amount::Amount;
use crate::funds::DIVISION_SAFTETY_CONST;
use vstd::prelude::*;

verus! {

/// The bonus part of a reward: 7.7% of it, rounded down.
pub open spec fn spec_bonus(reward: nat) -> nat {
    reward * 77 / 1000
}

/// The referrer's part: 40% of the bonus, rounded down.
pub open spec fn spec_referrer_value(reward: nat) -> nat {
    spec_bonus(reward) * 4 / 10
}

/// The user's part: the reward without the bonus.
pub open spec fn spec_user_value(reward: nat) -> nat {
    (reward - spec_bonus(reward)) as nat
}

/// The Uru NFT's part: the bonus without the referrer's part.
pub open spec fn spec_uru_value(reward: nat) -> nat {
    (spec_bonus(reward) - spec_referrer_value(reward)) as nat
}

/// The reward owed to a position of `delegated_egld` whose reward per share
/// was `user_rps`, when the contract's reward per share is `contract_rps`.
pub open spec fn spec_compute_reward(user_rps: nat, contract_rps: nat, delegated_egld: nat) -> nat {
    if contract_rps <= user_rps {
        0
    } else {
        ((contract_rps - user_rps) as nat) * delegated_egld / (DIVISION_SAFTETY_CONST as nat)
    }
}

/// The bonus never exceeds the reward, nor the referrer's part the bonus.
pub proof fn lemma_bonus_bounds(reward: nat)
    ensures
        spec_bonus(reward) <= reward,
        spec_referrer_value(reward) <= spec_bonus(reward),
{
    assert(reward * 77 / 1000 <= reward) by (nonlinear_arith);
    let b = spec_bonus(reward);
    assert(b * 4 / 10 <= b) by (nonlinear_arith);
}

/// The three shares of a reward.
pub struct RewardShares {
    pub user_value: Amount,
    pub referrer_value: Amount,
    pub uru_value: Amount,
}

/// Splits a reward: 7.7% of it is a bonus, of which 40% goes to the referrer
/// and the rest to the Uru NFT; the user gets the remaining 92.3%.
pub fn split_reward(reward: &Amount) -> (r: RewardShares)
    ensures
        r.user_value@ == spec_user_value(reward@),
        r.referrer_value@ == spec_referrer_value(reward@),
        r.uru_value@ == spec_uru_value(reward@),
{
    proof {
        lemma_bonus_bounds(reward@);
    }
    let bonus_value = reward.mul_u64(77).div_u64(1_000);
    let user_value = reward.sub(&bonus_value);
    let referrer_value = bonus_value.mul_u64(4).div_u64(10);
    let uru_value = bonus_value.sub(&referrer_value);
    RewardShares { user_value, referrer_value, uru_value }
}

/// The reward accrued by `delegated_egld` between the reward per share
/// `user_rps` and `contract_rps`; zero unless `contract_rps` is larger.
pub fn compute_reward(user_rps: &Amount, contract_rps: &Amount, delegated_egld: &Amount) -> (r: Amount)
    ensures
        r@ == spec_compute_reward(user_rps@, contract_rps@, delegated_egld@),
{
    if contract_rps.le(user_rps) {
        return Amount::zero();
    }
    contract_rps.sub(user_rps).mul(delegated_egld).div_u64(DIVISION_SAFTETY_CONST)
}

/// A split hands out exactly the reward: the three shares add up to it.
pub proof fn split_reward_conserves_reward(reward: nat)
    ensures
        spec_user_value(reward) + spec_referrer_value(reward) + spec_uru_value(reward) == reward,
{
    lemma_bonus_bounds(reward);
}

/// How a reward is shared: the bonus (the Uru and referrer shares together)
/// is 7.7% of the reward rounded down, the referrer gets 40% of the bonus
/// rounded down, and the user gets the rest of the reward.
pub proof fn reward_shares_follow_the_split(reward: nat)
    ensures
        ({
            let bonus = spec_uru_value(reward) + spec_referrer_value(reward);
            &&& bonus * 1000 <= reward * 77 < (bonus + 1) * 1000
            &&& spec_referrer_value(reward) * 10 <= bonus * 4 < (spec_referrer_value(reward) + 1) * 10
            &&& spec_user_value(reward) + bonus == reward
        }),
{
    lemma_bonus_bounds(reward);
    let b = spec_bonus(reward);
    assert(b * 1000 <= reward * 77 < (b + 1) * 1000) by (nonlinear_arith)
        requires
            b == reward * 77 / 1000,
    ;
    let rv = spec_referrer_value(reward);
    assert(rv * 10 <= b * 4 < (rv + 1) * 10) by (nonlinear_arith)
        requires
            rv == b * 4 / 10,
    ;
}

/// No reward accrues while the contract's reward per share has not risen
/// above the position's.
pub proof fn no_reward_without_rps_increase(user_rps: nat, contract_rps: nat, delegated_egld: nat)
    requires
        contract_rps <= user_rps,
    ensures
        spec_compute_reward(user_rps, contract_rps, delegated_egld) == 0,
{
}

/// The reward owed to a position never falls as the contract's reward per
/// share rises.
pub proof fn reward_is_monotonic_in_contract_rps(user_rps: nat, rps1: nat, rps2: nat, delegated_egld: nat)
    requires
        rps1 <= rps2,
    ensures
        spec_compute_reward(user_rps, rps1, delegated_egld)
            <= spec_compute_reward(user_rps, rps2, delegated_egld),
{
    if rps1 > user_rps {
        let d1 = (rps1 - user_rps) as nat;
        let d2 = (rps2 - user_rps) as nat;
        assert(d1 * delegated_egld <= d2 * delegated_egld) by (nonlinear_arith)
            requires
                d1 <= d2,
        ;
        assert((d1 * delegated_egld) / 1_000_000_000 <= (d2 * delegated_egld) / 1_000_000_000)
            by (nonlinear_arith)
            requires
                d1 * delegated_egld <= d2 * delegated_egld,
        ;
    }
}

/// A top-up of `reward` shared by `supply` tokens owes a position of
/// `delegated_egld` at most its pro rata part: reward times delegated over
/// supply (rounding only ever goes in the contract's favour).
pub proof fn topped_up_reward_is_at_most_pro_rata(user_rps: nat, reward: nat, supply: nat, delegated_egld: nat)
    requires
        supply > 0,
    ensures
        spec_compute_reward(user_rps, user_rps + crate::funds::spec_rps_increase(reward, supply), delegated_egld)
            * supply <= reward * delegated_egld,
{
    let c: nat = DIVISION_SAFTETY_CONST as nat;
    let inc = crate::funds::spec_rps_increase(reward, supply);
    assert(inc == reward * c / supply);
    if inc > 0 {
        let owed = spec_compute_reward(user_rps, user_rps + inc, delegated_egld);
        assert(owed == inc * delegated_egld / c);
        assert(inc * supply <= reward * c) by (nonlinear_arith)
            requires
                inc == reward * c / supply,
                supply > 0,
        ;
        assert(owed * c <= inc * delegated_egld) by (nonlinear_arith)
            requires
                owed == inc * delegated_egld / c,
                c > 0,
        ;
        assert(owed * c * supply <= inc * delegated_egld * supply) by (nonlinear_arith)
            requires
                owed * c <= inc * delegated_egld,
        ;
        assert(inc * delegated_egld * supply <= reward * c * delegated_egld) by (nonlinear_arith)
            requires
                inc * supply <= reward * c,
        ;
        assert(owed * supply <= reward * delegated_egld) by (nonlinear_arith)
            requires
                owed * c * supply <= reward * c * delegated_egld,
                c > 0,
        ;
    }
}

} // verus!
