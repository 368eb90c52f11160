//! The calls that the GToken contract makes to the DEX router.

use crate::amount::Amount;
use crate::config::{PairInfo, PairInfoView, PairTokens};
use crate::error::Error;
use crate::g_token::GToken;
use crate::keyed::{has_key, lemma_key_index_unique};
use crate::liquidity_pool::require_owner;
use crate::token::{Address, TokenId, TokenMapperState};
use vstd::prelude::*;

verus! {

/// A call of a router endpoint.
pub enum RouterCall {
    /// Creates the pair of `first_token_id` and `second_token_id`, with no
    /// initial liquidity adder, no fees and no admins; answers the pair's
    /// address.
    CreatePair { first_token_id: TokenId, second_token_id: TokenId },
    /// Issues the LP token of the pair at `pair_address`, paying `issue_cost`.
    IssueLpToken {
        pair_address: Address,
        lp_token_display_name: Vec<u8>,
        lp_token_ticker: Vec<u8>,
        issue_cost: Amount,
    },
    /// Gives the pair at `pair_address` the local roles of its LP token.
    SetLocalRoles { pair_address: Address },
}

impl RouterCall {
    /// The name of each endpoint.
    pub open spec fn spec_endpoint_name(&self) -> Seq<char> {
        match self {
            RouterCall::CreatePair { .. } => "createPair"@,
            RouterCall::IssueLpToken { .. } => "issueLpToken"@,
            RouterCall::SetLocalRoles { .. } => "setLocalRoles"@,
        }
    }

    /// The name under which the router exposes the endpoint.
    pub fn endpoint_name(&self) -> (r: &'static str)
        ensures
            r@ == self.spec_endpoint_name(),
    {
        match self {
            RouterCall::CreatePair { .. } => "createPair",
            RouterCall::IssueLpToken { .. } => "issueLpToken",
            RouterCall::SetLocalRoles { .. } => "setLocalRoles",
        }
    }
}

/// Refuses a router address that is not a smart contract (`addr_is_sc` is
/// the chain's answer).
pub fn require_router_addr_valid(addr_is_sc: bool) -> (r: Result<(), Error>)
    ensures
        addr_is_sc <==> r is Ok,
        !addr_is_sc ==> r == Err::<(), Error>(Error::InvalidRouterAddress),
{
    if !addr_is_sc {
        return Err(Error::InvalidRouterAddress);
    }
    Ok(())
}

/// A pair creation under way: the GPair and the base pair token.
pub struct CreatePairRequest {
    pub g_pair: TokenId,
    pub base_pair: TokenId,
}

impl GToken {
    /// Owner only, first step: asks the router to create the pair of
    /// `g_pair` and the base pair token.
    pub fn router_create_pair(&self, caller: &Address, owner: &Address, g_pair: TokenId, router_is_sc: bool) -> (r:
        Result<(CreatePairRequest, Address, RouterCall), Error>)
        ensures
            caller@ != owner@ ==> r == Err::<(CreatePairRequest, Address, RouterCall), Error>(Error::OnlyOwner),
            caller@ == owner@ && !(self.config.base_pair is Token) ==> r == Err::<
                (CreatePairRequest, Address, RouterCall),
                Error,
            >(Error::InvalidTokenId),
            caller@ == owner@ && self.config.base_pair is Token && self.config.router_addr is None ==> r == Err::<
                (CreatePairRequest, Address, RouterCall),
                Error,
            >(Error::StorageDecode),
            caller@ == owner@ && self.config.base_pair is Token && self.config.router_addr is Some && !router_is_sc ==> r
                == Err::<(CreatePairRequest, Address, RouterCall), Error>(Error::InvalidRouterAddress),
            caller@ == owner@ && self.config.base_pair is Token && self.config.router_addr is Some && router_is_sc ==> {
                &&& r matches Ok((req, router, call))
                &&& req.g_pair@ == g_pair@
                &&& req.base_pair@ == crate::g_token::token_of(self.config.base_pair)
                &&& router@ == self.config.router_addr->0@
                &&& call matches RouterCall::CreatePair { first_token_id, second_token_id }
                &&& first_token_id@ == g_pair@
                &&& second_token_id@ == req.base_pair@
            },
    {
        require_owner(caller, owner)?;
        let base_pair = match &self.config.base_pair {
            TokenMapperState::Token(id) => id.duplicate(),
            _ => {
                return Err(Error::InvalidTokenId);
            },
        };
        let router = self.call_router(router_is_sc)?;
        let call = RouterCall::CreatePair { first_token_id: g_pair.duplicate(), second_token_id: base_pair.duplicate() };
        Ok((CreatePairRequest { g_pair, base_pair }, router, call))
    }

    /// Pair creation, second step: the router created the pair at
    /// `address`. It is recorded with no supply; a GPair already recorded is
    /// refused.
    pub fn router_create_pair_complete(&mut self, request: CreatePairRequest, address: Address) -> (r: Result<(), Error>)
        requires
            old(self).config.wf(),
        ensures
            old(self).config.supply_consistent() ==> final(self).config.supply_consistent(),
            final(self).config.wf(),
            has_key(old(self).config.pair_map@, request.g_pair@) ==> r == Err::<(), Error>(Error::GPairAlreadyExists)
                && *final(self) == *old(self),
            !has_key(old(self).config.pair_map@, request.g_pair@) ==> {
                &&& r is Ok
                &&& has_key(final(self).config.pair_map@, request.g_pair@)
                &&& final(self).config.pair(request.g_pair@) == (PairInfoView {
                    g_token_supply: 0,
                    lp_token_supply: 0,
                    lp_token_id: crate::config::placeholder_lp_id_bytes(),
                    first_token_id: request.g_pair@,
                    second_token_id: request.base_pair@,
                    address: address@,
                })
                &&& final(self).config.pair_map@.len() == old(self).config.pair_map@.len() + 1
                &&& forall|j: int|
                    0 <= j < old(self).config.pair_map@.len() ==> #[trigger] final(self).config.pair_map@[j]
                        == old(self).config.pair_map@[j]
                &&& final(self).config.token_dust == old(self).config.token_dust
                &&& final(self).config.g_token_supply == old(self).config.g_token_supply
                &&& final(self).config.g_token == old(self).config.g_token
                &&& final(self).config.base_pair == old(self).config.base_pair
                &&& final(self).config.router_addr == old(self).config.router_addr
            },
    {
        if crate::keyed::find_key(&self.config.pair_map, &request.g_pair).is_some() {
            return Err(Error::GPairAlreadyExists);
        }
        let key = request.g_pair.duplicate();
        let tokens = PairTokens { first_token_id: request.g_pair, second_token_id: request.base_pair };
        let info = PairInfo::new(tokens, address);
        let ghost before = self.config.pair_map@;
        self.config.pair_map.push((key, info));
        proof {
            let last = before.len() as int;
            assert(crate::keyed::keys_distinct(self.config.pair_map@)) by {
                assert forall|a: int, b: int|
                    0 <= a < self.config.pair_map@.len() && 0 <= b < self.config.pair_map@.len() && a != b implies
                    #[trigger] self.config.pair_map@[a].0@ != #[trigger] self.config.pair_map@[b].0@ by {
                    if a == last {
                        assert(self.config.pair_map@[b] == before[b]);
                    } else if b == last {
                        assert(self.config.pair_map@[a] == before[a]);
                    } else {
                        assert(self.config.pair_map@[a] == before[a]);
                        assert(self.config.pair_map@[b] == before[b]);
                    }
                }
            }
            lemma_key_index_unique(self.config.pair_map@, last);
            crate::config::lemma_pairs_g_total_push(before, self.config.pair_map@[last]);
            assert(self.config.pair_map@ =~= before.push(self.config.pair_map@[last]));
        }
        Ok(())
    }

    /// Owner only: asks the router to issue the LP token of the pair
    /// `g_pair`, paying `issue_cost` eGLD.
    pub fn router_issue_lp(
        &self,
        caller: &Address,
        owner: &Address,
        g_pair: &TokenId,
        lp_token_display_name: Vec<u8>,
        lp_token_ticker: Vec<u8>,
        issue_cost: Amount,
        router_is_sc: bool,
    ) -> (r: Result<(Address, RouterCall), Error>)
        requires
            self.config.wf(),
        ensures
            caller@ != owner@ ==> r == Err::<(Address, RouterCall), Error>(Error::OnlyOwner),
            caller@ == owner@ && !has_key(self.config.pair_map@, g_pair@) ==> r == Err::<(Address, RouterCall), Error>(
                Error::UnrecognizedGPair,
            ),
            caller@ == owner@ && has_key(self.config.pair_map@, g_pair@) && self.config.router_addr is None ==> r
                == Err::<(Address, RouterCall), Error>(Error::StorageDecode),
            caller@ == owner@ && has_key(self.config.pair_map@, g_pair@) && self.config.router_addr is Some
                && !router_is_sc ==> r == Err::<(Address, RouterCall), Error>(Error::InvalidRouterAddress),
            caller@ == owner@ && has_key(self.config.pair_map@, g_pair@) && self.config.router_addr is Some
                && router_is_sc ==> {
                &&& r matches Ok((router, call))
                &&& router@ == self.config.router_addr->0@
                &&& call matches RouterCall::IssueLpToken { pair_address, lp_token_display_name: n, lp_token_ticker: t, issue_cost: c }
                &&& pair_address@ == self.config.pair(g_pair@).address
                &&& n@ == lp_token_display_name@
                &&& t@ == lp_token_ticker@
                &&& c@ == issue_cost@
            },
    {
        require_owner(caller, owner)?;
        let pair_address = self.config.get_pair_info(g_pair)?.address;
        let router = self.call_router(router_is_sc)?;
        Ok((router, RouterCall::IssueLpToken { pair_address, lp_token_display_name, lp_token_ticker, issue_cost }))
    }

    /// Owner only: asks the router to give the pair `g_pair` the local
    /// roles of its LP token.
    pub fn router_set_lp_local_roles(&self, caller: &Address, owner: &Address, g_pair: &TokenId, router_is_sc: bool) -> (r:
        Result<(Address, RouterCall), Error>)
        requires
            self.config.wf(),
        ensures
            caller@ != owner@ ==> r == Err::<(Address, RouterCall), Error>(Error::OnlyOwner),
            caller@ == owner@ && !has_key(self.config.pair_map@, g_pair@) ==> r == Err::<(Address, RouterCall), Error>(
                Error::UnrecognizedGPair,
            ),
            caller@ == owner@ && has_key(self.config.pair_map@, g_pair@) && self.config.router_addr is None ==> r
                == Err::<(Address, RouterCall), Error>(Error::StorageDecode),
            caller@ == owner@ && has_key(self.config.pair_map@, g_pair@) && self.config.router_addr is Some
                && !router_is_sc ==> r == Err::<(Address, RouterCall), Error>(Error::InvalidRouterAddress),
            caller@ == owner@ && has_key(self.config.pair_map@, g_pair@) && self.config.router_addr is Some
                && router_is_sc ==> {
                &&& r matches Ok((router, call))
                &&& router@ == self.config.router_addr->0@
                &&& call matches RouterCall::SetLocalRoles { pair_address }
                &&& pair_address@ == self.config.pair(g_pair@).address
            },
    {
        require_owner(caller, owner)?;
        let pair_address = self.config.get_pair_info(g_pair)?.address;
        let router = self.call_router(router_is_sc)?;
        Ok((router, RouterCall::SetLocalRoles { pair_address }))
    }
}

} // verus!
