//! The liquid staking contract: eGLD goes in, the liquid staking token comes
//! out, and rewards are shared per token.
//!
//! Each endpoint is a transition of the contract's storage. What the chain
//! knows (caller, owner, gas, epoch, whether an address is a contract) comes
//! in as arguments; the transfers and calls the endpoint makes come out as
//! values for the caller of the library to carry out. A refused call leaves
//! the storage as it was, as the chain reverts a failed transaction.

use crate::akf_interaction::{AkfEndpoint, AkfInteraction, AkfStorage};
use crate::amount::Amount;
use crate::delegation_interaction::{DelegationInteraction, DelegationProxyEndpoint, DelegationProxyStorage};
use crate::dsc_module::{DelegationModule, DscEndpoint, DscStorage};
use crate::error::Error;
use crate::funds::{Funds, FundsModule};
use crate::liquidity_pool::{require_owner, IssueRequest, LiquidityPool, LiquidityPoolModule};
use crate::reward_sharing::{
    compute_reward, spec_compute_reward, spec_referrer_value, spec_uru_value, spec_user_value,
    split_reward,
};
use crate::storage_cache::StorageCache;
use crate::token::{Address, EsdtTokenPayment, TokenMapperState};
use vstd::arithmetic::power::pow;
use vstd::prelude::*;

verus! {

/// 0.1 eGLD: the least that liquidity can be added with.
pub const MIN_EGLD_TO_DELEGATE: u64 = 100_000_000_000_000_000;

/// The gas given to a delegation call.
pub const DELEGATE_ACTION_GAS: u64 = 12_000_000;

/// The gas a claim call is given.
pub const CLAIM_GAS_LIMIT: u64 = 15_000_000;

/// One eGLD in its smallest unit.
pub open spec fn one_egld() -> nat {
    1_000_000_000_000_000_000
}

/// Epoch of the last claim, number of claims in that epoch, round of the
/// last claim that was passed on.
pub type LastClaimType = (u64, u8, u64);

/// The storage of the liquid staking contract.
pub struct LiquidStaking {
    pub dsc: DscStorage,
    pub akf: AkfStorage,
    pub delegation: DelegationProxyStorage,
    pub funds: Funds,
    pub pool: LiquidityPool,
    /// Absent until `init` stores it.
    pub last_claim: Option<LastClaimType>,
    /// The epoch of the last reward claim; zero before the first.
    pub last_claim_epoch: u64,
}

/// Whether `amt` is at least one eGLD, the least that is delegated at once.
pub fn is_enough_to_delegate(amt: &Amount) -> (r: bool)
    ensures
        r == (amt@ >= one_egld()),
{
    let one_egld_amount = Amount::from_u64(10).pow(18);
    proof {
        reveal_with_fuel(pow, 19);
        assert(pow(10, 18) == 1_000_000_000_000_000_000);
    }
    one_egld_amount.le(amt)
}

/// A transfer that claiming a reward makes.
pub enum RewardTransfer {
    /// A call of the Aku factory with eGLD attached.
    AkfCall { to: Address, call: AkfEndpoint, egld: Amount },
    /// A plain eGLD transfer.
    SendEgld { to: Address, amount: Amount },
}

/// The plain value of a reward transfer.
pub enum TransferView {
    AkfAddUruEgld { to: Seq<u8>, aku_id: u64, egld: nat },
    SendEgld { to: Seq<u8>, amount: nat },
}

impl View for RewardTransfer {
    type V = TransferView;

    open spec fn view(&self) -> TransferView {
        match self {
            RewardTransfer::AkfCall { to, call, egld } => match call {
                AkfEndpoint::AddUruEgld { id } => TransferView::AkfAddUruEgld {
                    to: to@,
                    aku_id: *id,
                    egld: egld@,
                },
            },
            RewardTransfer::SendEgld { to, amount } => TransferView::SendEgld {
                to: to@,
                amount: amount@,
            },
        }
    }
}

/// The transfers, in order, that paying `reward` makes: the Uru share to the
/// Aku factory (when non-zero), the referrer's share to the referrer (when
/// there is one and the share is non-zero), the user's share to the user.
pub open spec fn spec_reward_transfers(
    akf: Seq<u8>,
    aku_id: u64,
    user: Seq<u8>,
    referrer: Option<Seq<u8>>,
    reward: nat,
) -> Seq<TransferView> {
    let uru = spec_uru_value(reward);
    let to_referrer = spec_referrer_value(reward);
    let first = if uru > 0 {
        seq![TransferView::AkfAddUruEgld { to: akf, aku_id, egld: uru }]
    } else {
        Seq::empty()
    };
    let second = match referrer {
        Some(r) => if to_referrer > 0 {
            seq![TransferView::SendEgld { to: r, amount: to_referrer }]
        } else {
            Seq::empty()
        },
        None => Seq::empty(),
    };
    first + second + seq![TransferView::SendEgld { to: user, amount: spec_user_value(reward) }]
}

/// Where the transfers of a paid claim go: the Uru share, when non-zero,
/// first and to the Aku factory, for the Aku NFT of the claim itself; the
/// referrer's share, when there is a referrer and the share is non-zero,
/// to that referrer; last, the user's share to the user; nothing else.
pub proof fn reward_transfers_go_to_their_owners(
    akf: Seq<u8>,
    aku_id: u64,
    user: Seq<u8>,
    referrer: Option<Seq<u8>>,
    reward: nat,
)
    ensures
        ({
            let t = spec_reward_transfers(akf, aku_id, user, referrer, reward);
            let uru = spec_uru_value(reward);
            let to_referrer = spec_referrer_value(reward);
            let paid_referrer = referrer is Some && to_referrer > 0;
            &&& t.len() == (if uru > 0 {
                1nat
            } else {
                0nat
            }) + (if paid_referrer {
                1nat
            } else {
                0nat
            }) + 1
            &&& t.last() == TransferView::SendEgld { to: user, amount: spec_user_value(reward) }
            &&& uru > 0 ==> t[0] == TransferView::AkfAddUruEgld { to: akf, aku_id, egld: uru }
            &&& forall|i: int|
                0 <= i < t.len() && #[trigger] t[i] is AkfAddUruEgld ==> i == 0 && uru > 0 && t[i]
                    == TransferView::AkfAddUruEgld { to: akf, aku_id, egld: uru }
            &&& forall|i: int|
                0 <= i < t.len() - 1 && #[trigger] t[i] is SendEgld ==> paid_referrer && t[i]
                    == TransferView::SendEgld { to: referrer->0, amount: to_referrer }
        }),
{
}

/// The eGLD that a list of transfers moves.
pub open spec fn transfers_total(transfers: Seq<TransferView>) -> nat
    decreases transfers.len(),
{
    if transfers.len() == 0 {
        0
    } else {
        transfers_total(transfers.drop_last()) + match transfers.last() {
            TransferView::AkfAddUruEgld { egld, .. } => egld,
            TransferView::SendEgld { amount, .. } => amount,
        }
    }
}

/// The transfers of a total of two lists are the two totals added.
proof fn lemma_transfers_total_concat(a: Seq<TransferView>, b: Seq<TransferView>)
    ensures
        transfers_total(a + b) == transfers_total(a) + transfers_total(b),
    decreases b.len(),
{
    if b.len() == 0 {
        assert(a + b =~= a);
    } else {
        lemma_transfers_total_concat(a, b.drop_last());
        assert((a + b).drop_last() =~= a + b.drop_last());
    }
}

/// A paid claim hands out the whole reward: the transfers carry all of it
/// but the referrer's share when there is no referrer, a share which goes
/// to the pending delegation instead.
pub proof fn claimed_reward_is_fully_distributed(
    akf: Seq<u8>,
    aku_id: u64,
    user: Seq<u8>,
    referrer: Option<Seq<u8>>,
    reward: nat,
)
    ensures
        transfers_total(spec_reward_transfers(akf, aku_id, user, referrer, reward)) + (if referrer is None {
            spec_referrer_value(reward)
        } else {
            0
        }) == reward,
{
    crate::reward_sharing::split_reward_conserves_reward(reward);
    let uru = spec_uru_value(reward);
    let to_referrer = spec_referrer_value(reward);
    let first = if uru > 0 {
        seq![TransferView::AkfAddUruEgld { to: akf, aku_id, egld: uru }]
    } else {
        Seq::empty()
    };
    let second = match referrer {
        Some(r) => if to_referrer > 0 {
            seq![TransferView::SendEgld { to: r, amount: to_referrer }]
        } else {
            Seq::empty()
        },
        None => Seq::empty(),
    };
    let third = seq![TransferView::SendEgld { to: user, amount: spec_user_value(reward) }];
    lemma_transfers_total_concat(first + second, third);
    lemma_transfers_total_concat(first, second);
    reveal_with_fuel(transfers_total, 2);
    assert(transfers_total(first) == (if uru > 0 { uru } else { 0 }));
    assert(transfers_total(second) == (if referrer is Some && to_referrer > 0 { to_referrer } else { 0 }));
    assert(transfers_total(third) == spec_user_value(reward));
}

/// What a claim returns: the reward per share to record for the position,
/// and the transfers to make.
pub struct ClaimRewardOutcome {
    pub reward_per_share: Amount,
    pub transfers: Vec<RewardTransfer>,
}

/// An asynchronous call that delegates `amount` eGLD to the delegation
/// contract at `to`; its callback is `delegate_callback(amount, ..)`.
pub struct DelegateCall {
    pub to: Address,
    pub call: DscEndpoint,
    pub amount: Amount,
    pub gas_limit: u64,
}

/// A call that claims rewards through the delegation proxy at `to`.
pub struct ClaimCall {
    pub to: Address,
    pub call: DelegationProxyEndpoint,
    pub gas_limit: u64,
}

impl LiquidStaking {
    /// Every liquid staking token is backed: there are no more of them than
    /// eGLD was ever sent to add liquidity.
    pub open spec fn backed(&self) -> bool {
        self.funds.ls_token_supply@ <= self.pool.delegated_egld@
    }

    /// The storage of the contract before it is deployed.
    pub fn new() -> (r: LiquidStaking)
        ensures
            r.dsc.dsc_address is None,
            r.akf.akf_address is None,
            r.delegation.delegation_address is None,
            r.funds.pending_delegation@ == 0,
            r.funds.rewards_reserve@ == 0,
            r.funds.ls_token_supply@ == 0,
            r.funds.reward_per_share@ == 0,
            r.pool.ls_token is NotSet,
            r.pool.delegated_egld@ == 0,
            r.last_claim is None,
            r.last_claim_epoch == 0,
            r.backed(),
    {
        LiquidStaking {
            dsc: DscStorage { dsc_address: None },
            akf: AkfStorage { akf_address: None },
            delegation: DelegationProxyStorage { delegation_address: None },
            funds: Funds {
                pending_delegation: Amount::zero(),
                rewards_reserve: Amount::zero(),
                ls_token_supply: Amount::zero(),
                reward_per_share: Amount::zero(),
            },
            pool: LiquidityPool { ls_token: TokenMapperState::NotSet, delegated_egld: Amount::zero() },
            last_claim: None,
            last_claim_epoch: 0,
        }
    }

    /// Deployment: stores the addresses of the delegation contract, the Aku
    /// factory and the delegation proxy (each must be a smart contract, and
    /// an address already stored is kept) and starts the claim record at
    /// zero unless it is there already.
    pub fn init(
        &mut self,
        dsc_addr: &Address,
        dsc_is_sc: bool,
        akf_addr: &Address,
        akf_is_sc: bool,
        delegation_proxy_addr: &Address,
        delegation_proxy_is_sc: bool,
    ) -> (r: Result<(), Error>)
        ensures
            old(self).backed() ==> final(self).backed(),
            !dsc_is_sc ==> r == Err::<(), Error>(Error::DscAddressNotSc),
            dsc_is_sc && !akf_is_sc ==> r == Err::<(), Error>(Error::AkfAddressNotSc),
            dsc_is_sc && akf_is_sc && !delegation_proxy_is_sc ==> r == Err::<(), Error>(
                Error::DelegationAddressNotSc,
            ),
            r is Err ==> *final(self) == *old(self),
            dsc_is_sc && akf_is_sc && delegation_proxy_is_sc ==> {
                &&& r is Ok
                &&& final(self).dsc.dsc_address matches Some(a) && (old(self).dsc.dsc_address matches Some(o) ==> a == o) && (old(self).dsc.dsc_address is None ==> a@ == dsc_addr@)
                &&& final(self).akf.akf_address matches Some(a) && (old(self).akf.akf_address matches Some(o) ==> a == o) && (old(self).akf.akf_address is None ==> a@ == akf_addr@)
                &&& final(self).delegation.delegation_address matches Some(a) && (old(self).delegation.delegation_address matches Some(o) ==> a == o) && (old(self).delegation.delegation_address is None ==> a@ == delegation_proxy_addr@)
                &&& old(self).last_claim is Some ==> final(self).last_claim == old(self).last_claim
                &&& old(self).last_claim is None ==> final(self).last_claim == Some::<LastClaimType>((0, 0, 0))
                &&& final(self).last_claim_epoch == old(self).last_claim_epoch
                &&& final(self).funds == old(self).funds
                &&& final(self).pool == old(self).pool
            },
    {
        DscStorage::require_dsc_addr_valid(dsc_is_sc)?;
        AkfStorage::require_akf_addr_valid(akf_is_sc)?;
        DelegationProxyStorage::require_delegation_addr_valid(delegation_proxy_is_sc)?;
        let _ = self.dsc.set_dsc_address(dsc_addr, dsc_is_sc);
        let _ = self.akf.set_akf_address(akf_addr, akf_is_sc);
        let _ = self.delegation.set_delegation_address(delegation_proxy_addr, delegation_proxy_is_sc);
        if self.last_claim.is_none() {
            self.last_claim = Some((0, 0, 0));
        }
        Ok(())
    }

    /// Owner only: adds liquidity of `staked_egld` eGLD (at least 0.1 eGLD)
    /// out of the `egld_sent` eGLD paid. Mints as many liquid staking tokens
    /// as `staked_egld`, which go to the owner, and accounts the whole
    /// payment as delegated and pending delegation. Once the pending
    /// delegation reaches one eGLD it is delegated at once, as [`Self::delegate`]
    /// does: the pending delegation drops to zero and the delegation call is
    /// returned (which needs `gas_left` and the delegation contract's address,
    /// `dsc_is_sc` being the chain's answer for it). Returns the current
    /// reward per share, the minted tokens and the delegation call, if any.
    pub fn add_liquidity(
        &mut self,
        caller: &Address,
        owner: &Address,
        staked_egld: Amount,
        egld_sent: &Amount,
        gas_left: u64,
        dsc_is_sc: bool,
    ) -> (r: Result<(Amount, EsdtTokenPayment, Option<DelegateCall>), Error>)
        ensures
            old(self).backed() ==> final(self).backed(),
            caller@ != owner@ ==> r == Err::<(Amount, EsdtTokenPayment, Option<DelegateCall>), Error>(Error::OnlyOwner),
            caller@ == owner@ && staked_egld@ < MIN_EGLD_TO_DELEGATE ==> r == Err::<
                (Amount, EsdtTokenPayment, Option<DelegateCall>),
                Error,
            >(Error::InsufficientStakedEgld),
            caller@ == owner@ && staked_egld@ >= MIN_EGLD_TO_DELEGATE && staked_egld@ > egld_sent@ ==> r
                == Err::<(Amount, EsdtTokenPayment, Option<DelegateCall>), Error>(Error::InvalidEgldAmountSent),
            caller@ == owner@ && MIN_EGLD_TO_DELEGATE <= staked_egld@ <= egld_sent@ && !(old(self).pool.ls_token is Token) ==> r
                == Err::<(Amount, EsdtTokenPayment, Option<DelegateCall>), Error>(Error::InvalidTokenId),
            caller@ == owner@ && MIN_EGLD_TO_DELEGATE <= staked_egld@ <= egld_sent@ && (old(self).pool.ls_token matches TokenMapperState::Token(id) && !crate::token::valid_esdt_identifier(id@)) ==> r
                == Err::<(Amount, EsdtTokenPayment, Option<DelegateCall>), Error>(Error::LsTokenInvalid),
            r is Err ==> *final(self) == *old(self),
            r is Ok ==> {
                &&& caller@ == owner@
                &&& MIN_EGLD_TO_DELEGATE <= staked_egld@ <= egld_sent@
                &&& old(self).pool.ls_token matches TokenMapperState::Token(id) && crate::token::valid_esdt_identifier(id@)
            },
            caller@ == owner@ && MIN_EGLD_TO_DELEGATE <= staked_egld@ <= egld_sent@ ==> match old(self).pool.ls_token {
                TokenMapperState::Token(id) => crate::token::valid_esdt_identifier(id@) ==> {
                    let pending = old(self).funds.pending_delegation@ + egld_sent@;
                    &&& pending >= one_egld() && gas_left < DELEGATE_ACTION_GAS + 2_000_000 ==> r == Err::<
                        (Amount, EsdtTokenPayment, Option<DelegateCall>),
                        Error,
                    >(Error::NotEnoughGasForDelegate)
                    &&& pending >= one_egld() && gas_left >= DELEGATE_ACTION_GAS + 2_000_000
                        && old(self).dsc.dsc_address is None ==> r == Err::<
                        (Amount, EsdtTokenPayment, Option<DelegateCall>),
                        Error,
                    >(Error::DscAddressNotSet)
                    &&& pending >= one_egld() && gas_left >= DELEGATE_ACTION_GAS + 2_000_000
                        && old(self).dsc.dsc_address is Some && !dsc_is_sc ==> r == Err::<
                        (Amount, EsdtTokenPayment, Option<DelegateCall>),
                        Error,
                    >(Error::DscAddressNotSc)
                    &&& (pending < one_egld() || (gas_left >= DELEGATE_ACTION_GAS + 2_000_000
                        && old(self).dsc.dsc_address is Some && dsc_is_sc)) ==> {
                        &&& r matches Ok((rps, ls_token, call))
                        &&& rps@ == old(self).funds.reward_per_share@
                        &&& ls_token.token_identifier@ == id@
                        &&& ls_token.token_nonce == 0
                        &&& ls_token.amount@ == staked_egld@
                        &&& pending < one_egld() ==> {
                            &&& call is None
                            &&& final(self).funds.pending_delegation@ == pending
                        }
                        &&& pending >= one_egld() ==> {
                            &&& call matches Some(c)
                            &&& c.to@ == old(self).dsc.dsc_address->0@
                            &&& c.call is Delegate
                            &&& c.amount@ == pending
                            &&& c.gas_limit == DELEGATE_ACTION_GAS
                            &&& final(self).funds.pending_delegation@ == 0
                        }
                        &&& final(self).funds.ls_token_supply@ == old(self).funds.ls_token_supply@ + staked_egld@
                        &&& final(self).pool.delegated_egld@ == old(self).pool.delegated_egld@ + egld_sent@
                        &&& final(self).funds.reward_per_share@ == old(self).funds.reward_per_share@
                        &&& final(self).funds.rewards_reserve == old(self).funds.rewards_reserve
                        &&& final(self).pool.ls_token == old(self).pool.ls_token
                        &&& final(self).dsc == old(self).dsc
                        &&& final(self).akf == old(self).akf
                        &&& final(self).delegation == old(self).delegation
                        &&& final(self).last_claim == old(self).last_claim
                        &&& final(self).last_claim_epoch == old(self).last_claim_epoch
                    }
                },
                _ => true,
            },
    {
        require_owner(caller, owner)?;
        if !staked_egld.ge_u64(MIN_EGLD_TO_DELEGATE) {
            return Err(Error::InsufficientStakedEgld);
        }
        if !staked_egld.le(egld_sent) {
            return Err(Error::InvalidEgldAmountSent);
        }
        let mut storage_cache = StorageCache::new(self)?;
        if !storage_cache.ls_token_id.is_valid_esdt_identifier() {
            return Err(Error::LsTokenInvalid);
        }
        let delegating = is_enough_to_delegate(&storage_cache.pending_delegation.add(egld_sent));
        let mut to: Option<Address> = None;
        if delegating {
            let extra_gas: u64 = 2_000_000;
            if gas_left < DELEGATE_ACTION_GAS + extra_gas {
                return Err(Error::NotEnoughGasForDelegate);
            }
            to = Some(self.dsc.call_dsc(dsc_is_sc)?);
        }
        let ls_token = self.pool_add_liquidity(staked_egld, egld_sent, &mut storage_cache);
        let rps = storage_cache.reward_per_share.duplicate();
        let call = match to {
            Some(to) => {
                let delegate_amount = storage_cache.pending_delegation.duplicate();
                storage_cache.pending_delegation = Amount::zero();
                Some(
                    DelegateCall { to, call: DscEndpoint::Delegate, amount: delegate_amount, gas_limit: DELEGATE_ACTION_GAS },
                )
            },
            None => None,
        };
        storage_cache.commit(self);
        Ok((rps, ls_token, call))
    }

    /// The reward that a claim of a position with reward per share `rps`
    /// and `delegated_egld` eGLD is owed.
    pub open spec fn spec_claimed_reward(&self, rps: nat, delegated_egld: nat) -> nat {
        spec_compute_reward(rps, self.funds.reward_per_share@, delegated_egld)
    }

    /// Whether such a claim is paid: the reward is non-zero and the reserve
    /// covers it.
    pub open spec fn spec_claim_is_paid(&self, rps: nat, delegated_egld: nat) -> bool {
        let reward = self.spec_claimed_reward(rps, delegated_egld);
        reward > 0 && self.funds.rewards_reserve@ >= reward
    }

    /// Owner only: pays the reward of a position of `delegated_egld` eGLD
    /// whose reward per share is `rps`, when the reserve covers it. The
    /// reward is split (see [`split_reward`]): the Uru share goes to the Aku
    /// factory for the NFT `aku_id`, the referrer's share to `referrer` or,
    /// without one, to the pending delegation, the rest to `user_addr`; the
    /// reserve shrinks by the reward. Returns the reward per share to record
    /// for the position: the current one, unless a non-zero reward could not
    /// be paid, in which case `rps` itself. `akf_is_sc` is the chain's answer
    /// for the stored Aku factory address, needed when the Uru share is paid.
    /// A claim that goes through, paid or not, records `current_epoch` as the
    /// epoch of the last claim.
    #[verifier::spinoff_prover]
    pub fn claim_reward(
        &mut self,
        caller: &Address,
        owner: &Address,
        user_addr: &Address,
        aku_id: u64,
        rps: &Amount,
        delegated_egld: &Amount,
        referrer: Option<Address>,
        akf_is_sc: bool,
        current_epoch: u64,
    ) -> (r: Result<ClaimRewardOutcome, Error>)
        ensures
            old(self).backed() ==> final(self).backed(),
            caller@ != owner@ ==> r == Err::<ClaimRewardOutcome, Error>(Error::OnlyOwner),
            r is Err ==> *final(self) == *old(self),
            caller@ == owner@ && !old(self).spec_claim_is_paid(rps@, delegated_egld@) ==> {
                &&& r matches Ok(out)
                &&& out.transfers@.len() == 0
                &&& out.reward_per_share@ == (if old(self).spec_claimed_reward(rps@, delegated_egld@) > 0 {
                    rps@
                } else {
                    old(self).funds.reward_per_share@
                })
                &&& *final(self) == (LiquidStaking { last_claim_epoch: current_epoch, ..*old(self) })
            },
            caller@ == owner@ && old(self).spec_claim_is_paid(rps@, delegated_egld@)
                && spec_uru_value(old(self).spec_claimed_reward(rps@, delegated_egld@)) > 0
                && old(self).akf.akf_address is None ==> r == Err::<ClaimRewardOutcome, Error>(Error::AkfAddressNotSet),
            caller@ == owner@ && old(self).spec_claim_is_paid(rps@, delegated_egld@)
                && spec_uru_value(old(self).spec_claimed_reward(rps@, delegated_egld@)) > 0
                && old(self).akf.akf_address is Some && !akf_is_sc ==> r == Err::<ClaimRewardOutcome, Error>(Error::AkfAddressNotSc),
            caller@ == owner@ && old(self).spec_claim_is_paid(rps@, delegated_egld@)
                && (spec_uru_value(old(self).spec_claimed_reward(rps@, delegated_egld@)) > 0
                ==> old(self).akf.akf_address is Some && akf_is_sc) ==> {
                let reward = old(self).spec_claimed_reward(rps@, delegated_egld@);
                let akf: Seq<u8> = match old(self).akf.akf_address {
                    Some(a) => a@,
                    None => Seq::empty(),
                };
                let referrer_view: Option<Seq<u8>> = match referrer {
                    Some(a) => Some(a@),
                    None => None,
                };
                &&& r matches Ok(out)
                &&& out.reward_per_share@ == old(self).funds.reward_per_share@
                &&& out.transfers@.map_values(|t: RewardTransfer| t@)
                    == spec_reward_transfers(akf, aku_id, user_addr@, referrer_view, reward)
                &&& transfers_total(out.transfers@.map_values(|t: RewardTransfer| t@)) + (
                    final(self).funds.pending_delegation@ - old(self).funds.pending_delegation@) == reward
                &&& final(self).funds.rewards_reserve@ == old(self).funds.rewards_reserve@ - reward
                &&& referrer is None ==> final(self).funds.pending_delegation@
                    == old(self).funds.pending_delegation@ + spec_referrer_value(reward)
                &&& referrer is Some ==> final(self).funds.pending_delegation == old(self).funds.pending_delegation
                &&& final(self).funds.ls_token_supply == old(self).funds.ls_token_supply
                &&& final(self).funds.reward_per_share == old(self).funds.reward_per_share
                &&& final(self).pool == old(self).pool
                &&& final(self).dsc == old(self).dsc
                &&& final(self).akf == old(self).akf
                &&& final(self).delegation == old(self).delegation
                &&& final(self).last_claim == old(self).last_claim
                &&& final(self).last_claim_epoch == current_epoch
            },
    {
        require_owner(caller, owner)?;
        let ghost referrer_view: Option<Seq<u8>> = match &referrer {
            Some(a) => Some(a@),
            None => None,
        };
        let ghost akf_view: Seq<u8> = match &self.akf.akf_address {
            Some(a) => a@,
            None => Seq::empty(),
        };
        let current_rps = self.funds.reward_per_share.duplicate();
        let reward = compute_reward(rps, &current_rps, delegated_egld);
        if reward.is_zero() {
            self.last_claim_epoch = current_epoch;
            return Ok(ClaimRewardOutcome { reward_per_share: current_rps, transfers: Vec::new() });
        }
        if !reward.le(&self.funds.rewards_reserve) {
            self.last_claim_epoch = current_epoch;
            return Ok(ClaimRewardOutcome { reward_per_share: rps.duplicate(), transfers: Vec::new() });
        }
        let shares = split_reward(&reward);
        let mut transfers: Vec<RewardTransfer> = Vec::new();
        if !shares.uru_value.is_zero() {
            let akf = self.akf.call_akf(akf_is_sc)?;
            transfers.push(
                RewardTransfer::AkfCall {
                    to: akf,
                    call: AkfEndpoint::AddUruEgld { id: aku_id },
                    egld: shares.uru_value.duplicate(),
                },
            );
        }
        let ghost after_uru = transfers@.map_values(|t: RewardTransfer| t@);
        let referrer_is_none = referrer.is_none();
        match referrer {
            Some(referrer) => {
                if !shares.referrer_value.is_zero() {
                    transfers.push(
                        RewardTransfer::SendEgld { to: referrer, amount: shares.referrer_value.duplicate() },
                    );
                }
            },
            None => {},
        }
        let ghost after_referrer = transfers@.map_values(|t: RewardTransfer| t@);
        transfers.push(RewardTransfer::SendEgld { to: user_addr.duplicate(), amount: shares.user_value });
        proof {
            assert(transfers@.map_values(|t: RewardTransfer| t@) =~= after_referrer.push(
                TransferView::SendEgld { to: user_addr@, amount: spec_user_value(reward@) },
            ));
        }
        if referrer_is_none {
            self.funds.pending_delegation = self.funds.pending_delegation.add(&shares.referrer_value);
        }
        self.funds.rewards_reserve = self.funds.rewards_reserve.sub(&reward);
        self.last_claim_epoch = current_epoch;
        proof {
            claimed_reward_is_fully_distributed(akf_view, aku_id, user_addr@, referrer_view, reward@);
            assert(transfers@.map_values(|t: RewardTransfer| t@) == spec_reward_transfers(
                akf_view,
                aku_id,
                user_addr@,
                referrer_view,
                reward@,
            ));
        }
        Ok(ClaimRewardOutcome { reward_per_share: current_rps, transfers })
    }

    /// Owner only: checks a request to remove liquidity with the paid
    /// `payment` of liquid staking tokens, of which `egld_for_plv` may not
    /// exceed the amount. Nothing is paid out yet; the tokens stay with the
    /// contract.
    pub fn remove_liquidity(
        &self,
        caller: &Address,
        owner: &Address,
        egld_for_plv: &Amount,
        payment: &EsdtTokenPayment,
    ) -> (r: Result<(), Error>)
        ensures
            caller@ != owner@ ==> r == Err::<(), Error>(Error::OnlyOwner),
            caller@ == owner@ && !(self.pool.ls_token is Token) ==> r == Err::<(), Error>(Error::InvalidTokenId),
            caller@ == owner@ ==> match self.pool.ls_token {
                TokenMapperState::Token(id) => {
                    &&& !crate::token::valid_esdt_identifier(id@) ==> r == Err::<(), Error>(Error::LsTokenNotIssued)
                    &&& crate::token::valid_esdt_identifier(id@) && payment.token_identifier@ != id@ ==> r
                        == Err::<(), Error>(Error::BadPaymentToken)
                    &&& crate::token::valid_esdt_identifier(id@) && payment.token_identifier@ == id@ && payment.amount@ == 0
                        ==> r == Err::<(), Error>(Error::BadPaymentAmount)
                    &&& crate::token::valid_esdt_identifier(id@) && payment.token_identifier@ == id@ && payment.amount@ > 0
                        && egld_for_plv@ > payment.amount@ ==> r == Err::<(), Error>(Error::PlvAmountTooLarge)
                    &&& crate::token::valid_esdt_identifier(id@) && payment.token_identifier@ == id@ && 0 < payment.amount@
                        && egld_for_plv@ <= payment.amount@ ==> r is Ok
                },
                _ => true,
            },
    {
        require_owner(caller, owner)?;
        let storage_cache = StorageCache::new(self)?;
        if !storage_cache.ls_token_id.is_valid_esdt_identifier() {
            return Err(Error::LsTokenNotIssued);
        }
        if !payment.token_identifier.same(&storage_cache.ls_token_id) {
            return Err(Error::BadPaymentToken);
        }
        if payment.amount.is_zero() {
            return Err(Error::BadPaymentAmount);
        }
        if !egld_for_plv.le(&payment.amount) {
            return Err(Error::PlvAmountTooLarge);
        }
        Ok(())
    }

    /// Delegates the pending eGLD once it reaches one eGLD: the pending
    /// delegation drops to zero and a delegation call of that amount, with
    /// `DELEGATE_ACTION_GAS` gas, goes to the delegation contract. It needs
    /// `gas_left` of at least 14 million and the delegation contract's
    /// address (`dsc_is_sc` is the chain's answer for it). Below one eGLD
    /// nothing happens.
    pub fn delegate(&mut self, gas_left: u64, dsc_is_sc: bool) -> (r: Result<Option<DelegateCall>, Error>)
        ensures
            old(self).backed() ==> final(self).backed(),
            !(old(self).pool.ls_token is Token) ==> r == Err::<Option<DelegateCall>, Error>(Error::InvalidTokenId),
            r is Err ==> *final(self) == *old(self),
            old(self).pool.ls_token is Token && old(self).funds.pending_delegation@ < one_egld() ==> (r
                matches Ok(c) && c is None && *final(self) == *old(self)),
            old(self).pool.ls_token is Token && old(self).funds.pending_delegation@ >= one_egld() ==> {
                &&& gas_left < DELEGATE_ACTION_GAS + 2_000_000 ==> r == Err::<Option<DelegateCall>, Error>(
                    Error::NotEnoughGasForDelegate,
                )
                &&& gas_left >= DELEGATE_ACTION_GAS + 2_000_000 && old(self).dsc.dsc_address is None ==> r
                    == Err::<Option<DelegateCall>, Error>(Error::DscAddressNotSet)
                &&& gas_left >= DELEGATE_ACTION_GAS + 2_000_000 && old(self).dsc.dsc_address is Some && !dsc_is_sc
                    ==> r == Err::<Option<DelegateCall>, Error>(Error::DscAddressNotSc)
                &&& gas_left >= DELEGATE_ACTION_GAS + 2_000_000 && old(self).dsc.dsc_address is Some && dsc_is_sc
                    ==> {
                    &&& r matches Ok(Some(call))
                    &&& call.to@ == old(self).dsc.dsc_address->0@
                    &&& call.call is Delegate
                    &&& call.amount@ == old(self).funds.pending_delegation@
                    &&& call.gas_limit == DELEGATE_ACTION_GAS
                    &&& final(self).funds.pending_delegation@ == 0
                    &&& final(self).funds.ls_token_supply@ == old(self).funds.ls_token_supply@
                    &&& final(self).funds.reward_per_share@ == old(self).funds.reward_per_share@
                    &&& final(self).funds.rewards_reserve == old(self).funds.rewards_reserve
                    &&& final(self).pool.delegated_egld@ == old(self).pool.delegated_egld@
                    &&& final(self).pool.ls_token == old(self).pool.ls_token
                    &&& final(self).dsc == old(self).dsc
                    &&& final(self).akf == old(self).akf
                    &&& final(self).delegation == old(self).delegation
                    &&& final(self).last_claim == old(self).last_claim
                &&& final(self).last_claim_epoch == old(self).last_claim_epoch
                }
            },
    {
        let mut storage_cache = StorageCache::new(self)?;
        if !is_enough_to_delegate(&storage_cache.pending_delegation) {
            return Ok(None);
        }
        let extra_gas: u64 = 2_000_000;
        if gas_left < DELEGATE_ACTION_GAS + extra_gas {
            return Err(Error::NotEnoughGasForDelegate);
        }
        let to = self.dsc.call_dsc(dsc_is_sc)?;
        let delegate_amount = storage_cache.pending_delegation.duplicate();
        storage_cache.pending_delegation = Amount::zero();
        storage_cache.commit(self);
        Ok(Some(DelegateCall { to, call: DscEndpoint::Delegate, amount: delegate_amount, gas_limit: DELEGATE_ACTION_GAS }))
    }

    /// The callback of a delegation call of `delegate_amount` eGLD: when the
    /// call failed, the amount is pending delegation again.
    pub fn delegate_callback(&mut self, delegate_amount: &Amount, call_succeeded: bool)
        ensures
            old(self).backed() ==> final(self).backed(),
            call_succeeded ==> *final(self) == *old(self),
            !call_succeeded ==> {
                &&& final(self).funds.pending_delegation@ == old(self).funds.pending_delegation@ + delegate_amount@
                &&& final(self).funds.rewards_reserve == old(self).funds.rewards_reserve
                &&& final(self).funds.ls_token_supply == old(self).funds.ls_token_supply
                &&& final(self).funds.reward_per_share == old(self).funds.reward_per_share
                &&& final(self).pool == old(self).pool
                &&& final(self).dsc == old(self).dsc
                &&& final(self).akf == old(self).akf
                &&& final(self).delegation == old(self).delegation
                &&& final(self).last_claim == old(self).last_claim
                &&& final(self).last_claim_epoch == old(self).last_claim_epoch
            },
    {
        if !call_succeeded {
            self.funds.pending_delegation = self.funds.pending_delegation.add(delegate_amount);
        }
    }

    /// The claim record after a claim attempt in `current_epoch`: a new epoch
    /// restarts the count, and the attempt is counted.
    pub open spec fn spec_next_claim_record(last: LastClaimType, current_epoch: u64) -> (u64, u8) {
        if last.0 < current_epoch {
            (current_epoch, 1)
        } else {
            (last.0, (last.1 + 1) as u8)
        }
    }

    /// Owner only: the first two attempts in an epoch claim the staking
    /// rewards through the delegation proxy (with `CLAIM_GAS_LIMIT` gas,
    /// which `gas_left` must exceed) and record the round; later attempts in
    /// the epoch are only counted. `delegation_is_sc` is the chain's answer
    /// for the stored proxy address. The count of one epoch fits in a byte:
    /// a 256th attempt is left out.
    pub fn try_claim_from_delegation_proxy(
        &mut self,
        caller: &Address,
        owner: &Address,
        current_epoch: u64,
        current_round: u64,
        gas_left: u64,
        delegation_is_sc: bool,
    ) -> (r: Result<Option<ClaimCall>, Error>)
        requires
            old(self).last_claim matches Some(last) ==> (last.0 < current_epoch || last.1 < 255),
        ensures
            old(self).backed() ==> final(self).backed(),
            caller@ != owner@ ==> r == Err::<Option<ClaimCall>, Error>(Error::OnlyOwner),
            caller@ == owner@ && old(self).last_claim is None ==> r == Err::<Option<ClaimCall>, Error>(Error::StorageDecode),
            r is Err ==> *final(self) == *old(self),
            caller@ == owner@ ==> match old(self).last_claim {
                None => true,
                Some(last) => {
                    let (epoch, times) = Self::spec_next_claim_record(last, current_epoch);
                    &&& times > 2 ==> {
                        &&& r matches Ok(c) && c is None
                        &&& final(self).last_claim == Some::<LastClaimType>((epoch, times, last.2))
                    }
                    &&& times <= 2 && gas_left <= CLAIM_GAS_LIMIT ==> r == Err::<Option<ClaimCall>, Error>(
                        Error::NotEnoughGasForClaim,
                    )
                    &&& times <= 2 && gas_left > CLAIM_GAS_LIMIT && old(self).delegation.delegation_address is None
                        ==> r == Err::<Option<ClaimCall>, Error>(Error::DelegationAddressNotSet)
                    &&& times <= 2 && gas_left > CLAIM_GAS_LIMIT && old(self).delegation.delegation_address is Some
                        && !delegation_is_sc ==> r == Err::<Option<ClaimCall>, Error>(Error::DelegationAddressNotSc)
                    &&& times <= 2 && gas_left > CLAIM_GAS_LIMIT && old(self).delegation.delegation_address is Some
                        && delegation_is_sc ==> {
                        &&& r matches Ok(Some(call))
                        &&& call.to@ == old(self).delegation.delegation_address->0@
                        &&& call.call is ClaimRewards
                        &&& call.gas_limit == CLAIM_GAS_LIMIT
                        &&& final(self).last_claim == Some::<LastClaimType>((epoch, times, current_round))
                    }
                    &&& r is Ok ==> {
                        &&& final(self).funds == old(self).funds
                        &&& final(self).pool == old(self).pool
                        &&& final(self).dsc == old(self).dsc
                        &&& final(self).akf == old(self).akf
                        &&& final(self).delegation == old(self).delegation
                        &&& final(self).last_claim_epoch == old(self).last_claim_epoch
                    }
                },
            },
    {
        require_owner(caller, owner)?;
        let (mut last_epoch, mut claim_times, mut last_block) = match self.last_claim {
            Some(last) => last,
            None => {
                return Err(Error::StorageDecode);
            },
        };
        if last_epoch < current_epoch {
            last_epoch = current_epoch;
            claim_times = 0;
        }
        claim_times = claim_times + 1;
        let mut call = None;
        if claim_times <= 2 {
            if !(gas_left > CLAIM_GAS_LIMIT) {
                return Err(Error::NotEnoughGasForClaim);
            }
            let to = self.delegation.call_delegation(delegation_is_sc)?;
            last_block = current_round;
            call = Some(ClaimCall { to, call: DelegationProxyEndpoint::ClaimRewards, gas_limit: CLAIM_GAS_LIMIT });
        }
        self.last_claim = Some((last_epoch, claim_times, last_block));
        Ok(call)
    }

    /// View: whether the pending delegation has reached one eGLD.
    pub fn is_enough_to_delegate(&self) -> (r: bool)
        ensures
            r == (self.funds.pending_delegation@ >= one_egld()),
    {
        is_enough_to_delegate(&self.funds.pending_delegation)
    }
}

/// The claims that successive attempts in `epoch` send to the delegation
/// proxy, starting from the claim record `last`, the attempt at `rounds[i]`
/// being the i-th (see [`LiquidStaking::try_claim_from_delegation_proxy`]).
pub open spec fn spec_claim_calls_issued(last: LastClaimType, epoch: u64, rounds: Seq<u64>) -> nat
    decreases rounds.len(),
{
    if rounds.len() == 0 {
        0
    } else {
        let (e, t) = LiquidStaking::spec_next_claim_record(last, epoch);
        let next: LastClaimType = if t <= 2 {
            (e, t, rounds[0])
        } else {
            (e, t, last.2)
        };
        (if t <= 2 {
            1nat
        } else {
            0nat
        }) + spec_claim_calls_issued(next, epoch, rounds.drop_first())
    }
}

/// Within an epoch already recorded, attempts can only send the claims the
/// record leaves of two.
proof fn lemma_claims_left_in_epoch(last: LastClaimType, epoch: u64, rounds: Seq<u64>)
    requires
        last.0 >= epoch,
        last.1 + rounds.len() <= 255,
    ensures
        spec_claim_calls_issued(last, epoch, rounds) <= (if last.1 >= 2 {
            0
        } else {
            2 - last.1
        }),
    decreases rounds.len(),
{
    if rounds.len() > 0 {
        let (e, t) = LiquidStaking::spec_next_claim_record(last, epoch);
        assert(e == last.0 && t == last.1 + 1);
        let next: LastClaimType = if t <= 2 {
            (e, t, rounds[0])
        } else {
            (e, t, last.2)
        };
        lemma_claims_left_in_epoch(next, epoch, rounds.drop_first());
    }
}

/// At most two claims go to the delegation proxy per epoch: however many
/// attempts succeed while the epoch stays `epoch`, no more than two of them
/// send a claim, and once two have been sent in the epoch no attempt sends
/// another until the epoch advances. The attempts are those that the claim
/// count of one byte admits.
pub proof fn at_most_two_claims_per_epoch(last: LastClaimType, epoch: u64, rounds: Seq<u64>)
    requires
        last.0 < epoch ==> rounds.len() <= 255,
        last.0 >= epoch ==> last.1 + rounds.len() <= 255,
    ensures
        spec_claim_calls_issued(last, epoch, rounds) <= 2,
        last.0 == epoch && last.1 >= 2 ==> spec_claim_calls_issued(last, epoch, rounds) == 0,
{
    if last.0 >= epoch {
        lemma_claims_left_in_epoch(last, epoch, rounds);
    } else if rounds.len() > 0 {
        let next: LastClaimType = (epoch, 1, rounds[0]);
        lemma_claims_left_in_epoch(next, epoch, rounds.drop_first());
    }
}

impl FundsModule for LiquidStaking {
    /// Accounts a top-up of rewards (see [`Funds::top_up_rewards`]).
    fn top_up_rewards(&mut self, reward_increase: &Amount)
        ensures
            old(self).backed() ==> final(self).backed(),
            final(self).funds.pending_delegation@ == old(self).funds.pending_delegation@,
            final(self).funds.ls_token_supply@ == old(self).funds.ls_token_supply@,
            (reward_increase@ > 0 && old(self).funds.ls_token_supply@ > 0) ==> {
                &&& final(self).funds.reward_per_share@ == old(self).funds.reward_per_share@
                    + crate::funds::spec_rps_increase(reward_increase@, old(self).funds.ls_token_supply@)
                &&& final(self).funds.rewards_reserve@ == old(self).funds.rewards_reserve@ + reward_increase@
            },
            !(reward_increase@ > 0 && old(self).funds.ls_token_supply@ > 0) ==> {
                &&& final(self).funds.reward_per_share@ == old(self).funds.reward_per_share@
                &&& final(self).funds.rewards_reserve@ == old(self).funds.rewards_reserve@
            },
            final(self).pool == old(self).pool,
            final(self).dsc == old(self).dsc,
            final(self).akf == old(self).akf,
            final(self).delegation == old(self).delegation,
            final(self).last_claim == old(self).last_claim,
            final(self).last_claim_epoch == old(self).last_claim_epoch,
    {
        self.funds.top_up_rewards(reward_increase);
    }

}

impl LiquidityPoolModule for LiquidStaking {
    /// See [`LiquidityPool::register_ls_token`].
    fn register_ls_token(
        &mut self,
        caller: &Address,
        owner: &Address,
        payment_amount: Amount,
        token_display_name: Vec<u8>,
        token_ticker: Vec<u8>,
    ) -> (r: Result<IssueRequest, Error>)
        ensures
            caller@ != owner@ ==> r == Err::<IssueRequest, Error>(Error::OnlyOwner),
            caller@ == owner@ && old(self).pool.ls_token is Pending ==> r == Err::<IssueRequest, Error>(Error::IssueAlreadyCalled),
            caller@ == owner@ && old(self).pool.ls_token is Token ==> r == Err::<IssueRequest, Error>(Error::TokenIdAlreadySet),
            r is Err ==> *final(self) == *old(self),
            caller@ == owner@ && old(self).pool.ls_token is NotSet ==> {
                &&& r matches Ok(req)
                &&& req.issue_cost@ == payment_amount@
                &&& req.token_display_name@ == token_display_name@
                &&& req.token_ticker@ == token_ticker@
                &&& req.num_decimals == 18
                &&& final(self).pool.ls_token is Pending
                &&& final(self).pool.delegated_egld == old(self).pool.delegated_egld
            },
            final(self).funds == old(self).funds,
            final(self).dsc == old(self).dsc,
            final(self).akf == old(self).akf,
            final(self).delegation == old(self).delegation,
            final(self).last_claim == old(self).last_claim,
            final(self).last_claim_epoch == old(self).last_claim_epoch,
    {
        self.pool.register_ls_token(caller, owner, payment_amount, token_display_name, token_ticker)
    }

    /// See [`LiquidityPool::pool_add_liquidity`].
    fn pool_add_liquidity(&self, egld_staked: Amount, egld_sent: &Amount, storage_cache: &mut StorageCache) -> (r:
        EsdtTokenPayment)
        ensures
            r.token_identifier@ == old(storage_cache).ls_token_id@,
            r.token_nonce == 0,
            r.amount@ == egld_staked@,
            final(storage_cache).ls_token_id@ == old(storage_cache).ls_token_id@,
            final(storage_cache).ls_token_supply@ == old(storage_cache).ls_token_supply@ + egld_staked@,
            final(storage_cache).delegated_egld@ == old(storage_cache).delegated_egld@ + egld_sent@,
            final(storage_cache).pending_delegation@ == old(storage_cache).pending_delegation@ + egld_sent@,
            final(storage_cache).reward_per_share@ == old(storage_cache).reward_per_share@,
    {
        LiquidityPool::pool_add_liquidity(egld_staked, egld_sent, storage_cache)
    }
}

impl DelegationModule for LiquidStaking {
    /// See [`DscStorage::call_dsc`].
    fn call_dsc(&self, stored_is_sc: bool) -> (r: Result<Address, Error>)
        ensures
            self.dsc.dsc_address is None ==> r == Err::<Address, Error>(Error::DscAddressNotSet),
            self.dsc.dsc_address is Some && !stored_is_sc ==> r == Err::<Address, Error>(Error::DscAddressNotSc),
            self.dsc.dsc_address is Some && stored_is_sc ==> (r matches Ok(a) && a@ == self.dsc.dsc_address->0@),
    {
        self.dsc.call_dsc(stored_is_sc)
    }

    /// See [`DscStorage::set_dsc_address`].
    fn set_dsc_address(&mut self, addr: &Address, addr_is_sc: bool) -> (r: Result<(), Error>)
        ensures
            !addr_is_sc ==> r == Err::<(), Error>(Error::DscAddressNotSc) && *final(self) == *old(self),
            addr_is_sc ==> r is Ok,
            addr_is_sc && old(self).dsc.dsc_address is None ==> (final(self).dsc.dsc_address matches Some(a) && a@ == addr@),
            addr_is_sc && old(self).dsc.dsc_address is Some ==> *final(self) == *old(self),
            final(self).akf == old(self).akf,
            final(self).delegation == old(self).delegation,
            final(self).funds == old(self).funds,
            final(self).pool == old(self).pool,
            final(self).last_claim == old(self).last_claim,
            final(self).last_claim_epoch == old(self).last_claim_epoch,
    {
        self.dsc.set_dsc_address(addr, addr_is_sc)
    }

    /// See [`DscStorage::require_dsc_addr_valid`].
    fn require_dsc_addr_valid(&self, addr_is_sc: bool) -> (r: Result<(), Error>)
        ensures
            addr_is_sc <==> r is Ok,
            !addr_is_sc ==> r == Err::<(), Error>(Error::DscAddressNotSc),
    {
        DscStorage::require_dsc_addr_valid(addr_is_sc)
    }

    /// See [`DscStorage::get_dsc_address`].
    fn get_dsc_address(&self, stored_is_sc: bool) -> (r: Result<Address, Error>)
        ensures
            self.dsc.dsc_address is None ==> r == Err::<Address, Error>(Error::DscAddressNotSet),
            self.dsc.dsc_address is Some && !stored_is_sc ==> r == Err::<Address, Error>(Error::DscAddressNotSc),
            self.dsc.dsc_address is Some && stored_is_sc ==> (r matches Ok(a) && a@ == self.dsc.dsc_address->0@),
    {
        self.dsc.get_dsc_address(stored_is_sc)
    }
}

impl AkfInteraction for LiquidStaking {
    /// See [`AkfStorage::call_akf`].
    fn call_akf(&self, stored_is_sc: bool) -> (r: Result<Address, Error>)
        ensures
            self.akf.akf_address is None ==> r == Err::<Address, Error>(Error::AkfAddressNotSet),
            self.akf.akf_address is Some && !stored_is_sc ==> r == Err::<Address, Error>(Error::AkfAddressNotSc),
            self.akf.akf_address is Some && stored_is_sc ==> (r matches Ok(a) && a@ == self.akf.akf_address->0@),
    {
        self.akf.call_akf(stored_is_sc)
    }

    /// See [`AkfStorage::set_akf_address`].
    fn set_akf_address(&mut self, addr: &Address, addr_is_sc: bool) -> (r: Result<(), Error>)
        ensures
            !addr_is_sc ==> r == Err::<(), Error>(Error::AkfAddressNotSc) && *final(self) == *old(self),
            addr_is_sc ==> r is Ok,
            addr_is_sc && old(self).akf.akf_address is None ==> (final(self).akf.akf_address matches Some(a) && a@ == addr@),
            addr_is_sc && old(self).akf.akf_address is Some ==> *final(self) == *old(self),
            final(self).dsc == old(self).dsc,
            final(self).delegation == old(self).delegation,
            final(self).funds == old(self).funds,
            final(self).pool == old(self).pool,
            final(self).last_claim == old(self).last_claim,
            final(self).last_claim_epoch == old(self).last_claim_epoch,
    {
        self.akf.set_akf_address(addr, addr_is_sc)
    }

    /// See [`AkfStorage::require_akf_addr_valid`].
    fn require_akf_addr_valid(&self, addr_is_sc: bool) -> (r: Result<(), Error>)
        ensures
            addr_is_sc <==> r is Ok,
            !addr_is_sc ==> r == Err::<(), Error>(Error::AkfAddressNotSc),
    {
        AkfStorage::require_akf_addr_valid(addr_is_sc)
    }

    /// See [`AkfStorage::get_akf_address`].
    fn get_akf_address(&self, stored_is_sc: bool) -> (r: Result<Address, Error>)
        ensures
            self.akf.akf_address is None ==> r == Err::<Address, Error>(Error::AkfAddressNotSet),
            self.akf.akf_address is Some && !stored_is_sc ==> r == Err::<Address, Error>(Error::AkfAddressNotSc),
            self.akf.akf_address is Some && stored_is_sc ==> (r matches Ok(a) && a@ == self.akf.akf_address->0@),
    {
        self.akf.get_akf_address(stored_is_sc)
    }
}

impl DelegationInteraction for LiquidStaking {
    /// See [`DelegationProxyStorage::call_delegation`].
    fn call_delegation(&self, stored_is_sc: bool) -> (r: Result<Address, Error>)
        ensures
            self.delegation.delegation_address is None ==> r == Err::<Address, Error>(Error::DelegationAddressNotSet),
            self.delegation.delegation_address is Some && !stored_is_sc ==> r == Err::<Address, Error>(Error::DelegationAddressNotSc),
            self.delegation.delegation_address is Some && stored_is_sc ==> (r matches Ok(a) && a@ == self.delegation.delegation_address->0@),
    {
        self.delegation.call_delegation(stored_is_sc)
    }

    /// See [`DelegationProxyStorage::set_delegation_address`].
    fn set_delegation_address(&mut self, addr: &Address, addr_is_sc: bool) -> (r: Result<(), Error>)
        ensures
            !addr_is_sc ==> r == Err::<(), Error>(Error::DelegationAddressNotSc) && *final(self) == *old(self),
            addr_is_sc ==> r is Ok,
            addr_is_sc && old(self).delegation.delegation_address is None ==> (final(self).delegation.delegation_address matches Some(a) && a@ == addr@),
            addr_is_sc && old(self).delegation.delegation_address is Some ==> *final(self) == *old(self),
            final(self).dsc == old(self).dsc,
            final(self).akf == old(self).akf,
            final(self).funds == old(self).funds,
            final(self).pool == old(self).pool,
            final(self).last_claim == old(self).last_claim,
            final(self).last_claim_epoch == old(self).last_claim_epoch,
    {
        self.delegation.set_delegation_address(addr, addr_is_sc)
    }

    /// See [`DelegationProxyStorage::require_delegation_addr_valid`].
    fn require_delegation_addr_valid(&self, addr_is_sc: bool) -> (r: Result<(), Error>)
        ensures
            addr_is_sc <==> r is Ok,
            !addr_is_sc ==> r == Err::<(), Error>(Error::DelegationAddressNotSc),
    {
        DelegationProxyStorage::require_delegation_addr_valid(addr_is_sc)
    }

    /// See [`DelegationProxyStorage::get_delegation_address`].
    fn get_delegation_address(&self, stored_is_sc: bool) -> (r: Result<Address, Error>)
        ensures
            self.delegation.delegation_address is None ==> r == Err::<Address, Error>(Error::DelegationAddressNotSet),
            self.delegation.delegation_address is Some && !stored_is_sc ==> r == Err::<Address, Error>(Error::DelegationAddressNotSc),
            self.delegation.delegation_address is Some && stored_is_sc ==> (r matches Ok(a) && a@ == self.delegation.delegation_address->0@),
    {
        self.delegation.get_delegation_address(stored_is_sc)
    }
}

/// The rewards owed to the positions `props` (each a reward per share and
/// an amount of delegated eGLD) at the reward per share `current_rps`.
pub open spec fn spec_total_claimable(props: Seq<(nat, nat)>, current_rps: nat) -> nat
    decreases props.len(),
{
    if props.len() == 0 {
        0
    } else {
        spec_total_claimable(props.drop_last(), current_rps) + spec_compute_reward(
            props.last().0,
            current_rps,
            props.last().1,
        )
    }
}

/// Adding a position to the list adds exactly that position's reward to
/// the total claimable.
pub proof fn total_claimable_adds_each_position(props: Seq<(nat, nat)>, p: (nat, nat), current_rps: nat)
    ensures
        spec_total_claimable(props.push(p), current_rps) == spec_total_claimable(props, current_rps)
            + spec_compute_reward(p.0, current_rps, p.1),
{
    assert(props.push(p).drop_last() =~= props);
}

/// The total claimable of two lists put together is the sum of their
/// totals: every position counts once, wherever it stands. Nothing is
/// claimable of no position, and of a single one exactly its reward.
pub proof fn total_claimable_sums_every_position(a: Seq<(nat, nat)>, b: Seq<(nat, nat)>, current_rps: nat)
    ensures
        spec_total_claimable(a + b, current_rps) == spec_total_claimable(a, current_rps) + spec_total_claimable(
            b,
            current_rps,
        ),
        spec_total_claimable(Seq::empty(), current_rps) == 0,
        b.len() == 1 ==> spec_total_claimable(b, current_rps) == spec_compute_reward(b[0].0, current_rps, b[0].1),
    decreases b.len(),
{
    if b.len() == 0 {
        assert(a + b =~= a);
    } else {
        total_claimable_sums_every_position(a, b.drop_last(), current_rps);
        assert((a + b).drop_last() =~= a + b.drop_last());
        if b.len() == 1 {
            assert(b.drop_last() =~= Seq::<(nat, nat)>::empty());
        }
    }
}

/// The plain value of a list of positions.
pub open spec fn props_view(props: Seq<(Amount, Amount)>) -> Seq<(nat, nat)> {
    props.map_values(|p: (Amount, Amount)| (p.0@, p.1@))
}

/// The plain value of a list of positions lists each position's reward
/// per share and delegated eGLD, in order.
pub proof fn props_view_keeps_each_position(props: Seq<(Amount, Amount)>)
    ensures
        props_view(props).len() == props.len(),
        forall|i: int| 0 <= i < props.len() ==> #[trigger] props_view(props)[i] == (props[i].0@, props[i].1@),
{
}

impl LiquidStaking {
    /// View, only through a VM query (the caller is the contract itself):
    /// the sum of the rewards owed to the positions `props`.
    pub fn total_claimable(&self, caller: &Address, sc_address: &Address, props: &Vec<(Amount, Amount)>) -> (r: Result<
        Amount,
        Error,
    >)
        ensures
            caller@ != sc_address@ ==> r == Err::<Amount, Error>(Error::OnlyViaQuery),
            caller@ == sc_address@ ==> (r matches Ok(total) && total@ == spec_total_claimable(
                props_view(props@),
                self.funds.reward_per_share@,
            )),
    {
        if !caller.same(sc_address) {
            return Err(Error::OnlyViaQuery);
        }
        let mut claimable = Amount::zero();
        let current_rps = &self.funds.reward_per_share;
        let n = props.len();
        for i in 0..n
            invariant
                n == props.len(),
                claimable@ == spec_total_claimable(props_view(props@).take(i as int), current_rps@),
        {
            let (rps, delegated_egld) = &props[i];
            let reward = compute_reward(rps, current_rps, delegated_egld);
            claimable = claimable.add(&reward);
            proof {
                assert(props_view(props@).take(i + 1).drop_last() =~= props_view(props@).take(i as int));
            }
        }
        proof {
            assert(props_view(props@).take(n as int) =~= props_view(props@));
        }
        Ok(claimable)
    }
}

} // verus!
