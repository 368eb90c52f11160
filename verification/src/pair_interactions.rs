//! The calls that the GToken contract makes to a DEX pair contract.

use crate::amount::Amount;
use crate::config::{dust_part, placeholder_lp_id_bytes, Config, PairInfoView};
use crate::error::Error;
use crate::g_token::{token_of, GToken};
use crate::keyed::has_key;
use crate::liquidity_pool::require_owner;
use crate::token::{payment_view, Address, EsdtTokenPayment, TokenId, TokenMapperState};
use vstd::prelude::*;

verus! {

/// A call of a pair contract's endpoint, with the tokens it carries.
pub enum PairCall {
    /// How much of the other token `amount_in` of `token_in` swaps for.
    GetAmountOutView { token_in: TokenId, amount_in: Amount },
    /// How much of the other token is worth `amount_in` of `token_in` at the
    /// pair's reserves.
    GetEquivalent { token_in: TokenId, amount_in: Amount },
    /// Swaps all of `payment` for at least `amount_out_min` of `token_out`.
    SwapTokensFixedInput { token_out: TokenId, amount_out_min: Amount, payment: EsdtTokenPayment },
    /// Swaps at most `payment` for exactly `amount_out` of `token_out`.
    SwapTokensFixedOutput { token_out: TokenId, amount_out: Amount, payment: EsdtTokenPayment },
    /// Provides the first liquidity of the pair.
    AddInitialLiquidity { first_payment: EsdtTokenPayment, second_payment: EsdtTokenPayment },
    /// Provides liquidity, at least the given amounts of each token.
    AddLiquidity {
        first_token_amount_min: Amount,
        second_token_amount_min: Amount,
        first_payment: EsdtTokenPayment,
        second_payment: EsdtTokenPayment,
    },
    /// Returns the LP tokens `payment` for at least the given amounts.
    RemoveLiquidity {
        first_token_amount_min: Amount,
        second_token_amount_min: Amount,
        payment: EsdtTokenPayment,
    },
    /// The tokens that `liquidity` LP tokens stand for.
    GetTokensForGivenPosition { liquidity: Amount },
}

impl PairCall {
    /// The name of each endpoint.
    pub open spec fn spec_endpoint_name(&self) -> Seq<char> {
        match self {
            PairCall::GetAmountOutView { .. } => "getAmountOut"@,
            PairCall::GetEquivalent { .. } => "getEquivalent"@,
            PairCall::SwapTokensFixedInput { .. } => "swapTokensFixedInput"@,
            PairCall::SwapTokensFixedOutput { .. } => "swapTokensFixedOutput"@,
            PairCall::AddInitialLiquidity { .. } => "addInitialLiquidity"@,
            PairCall::AddLiquidity { .. } => "addLiquidity"@,
            PairCall::RemoveLiquidity { .. } => "removeLiquidity"@,
            PairCall::GetTokensForGivenPosition { .. } => "getTokensForGivenPosition"@,
        }
    }

    /// The name under which the pair contract exposes the endpoint.
    pub fn endpoint_name(&self) -> (r: &'static str)
        ensures
            r@ == self.spec_endpoint_name(),
    {
        match self {
            PairCall::GetAmountOutView { .. } => "getAmountOut",
            PairCall::GetEquivalent { .. } => "getEquivalent",
            PairCall::SwapTokensFixedInput { .. } => "swapTokensFixedInput",
            PairCall::SwapTokensFixedOutput { .. } => "swapTokensFixedOutput",
            PairCall::AddInitialLiquidity { .. } => "addInitialLiquidity",
            PairCall::AddLiquidity { .. } => "addLiquidity",
            PairCall::RemoveLiquidity { .. } => "removeLiquidity",
            PairCall::GetTokensForGivenPosition { .. } => "getTokensForGivenPosition",
        }
    }
}

/// The swap of all of `payment` for at least `amount_out_min` of `token_out`.
pub fn pair_swap_fixed_input(token_out: &TokenId, amount_out_min: Amount, payment: EsdtTokenPayment) -> (r: PairCall)
    ensures
        r matches PairCall::SwapTokensFixedInput { token_out: t, amount_out_min: m, payment: p } && t@ == token_out@
            && m@ == amount_out_min@ && crate::token::payment_view(&p) == crate::token::payment_view(&payment),
{
    PairCall::SwapTokensFixedInput { token_out: token_out.duplicate(), amount_out_min, payment }
}

/// The swap of at most `payment` for exactly `amount_out` of `token_out`.
pub fn pair_swap_fixed_output(token_out: &TokenId, amount_out: Amount, payment: EsdtTokenPayment) -> (r: PairCall)
    ensures
        r matches PairCall::SwapTokensFixedOutput { token_out: t, amount_out: m, payment: p } && t@ == token_out@
            && m@ == amount_out@ && crate::token::payment_view(&p) == crate::token::payment_view(&payment),
{
    PairCall::SwapTokensFixedOutput { token_out: token_out.duplicate(), amount_out, payment }
}

/// The query of what `amount` LP tokens stand for.
pub fn pair_get_tokens_for_given_position(amount: &Amount) -> (r: PairCall)
    ensures
        r matches PairCall::GetTokensForGivenPosition { liquidity } && liquidity@ == amount@,
{
    PairCall::GetTokensForGivenPosition { liquidity: amount.duplicate() }
}

impl GToken {
    /// Owner only, first step: the first liquidity of the pair `g_pair`,
    /// paid as `first_payment` and `second_payment`, which must be of the
    /// pair's first and second token; it goes to the pair.
    pub fn pair_add_initial_liquidity_begin(
        &self,
        caller: &Address,
        owner: &Address,
        g_pair: &TokenId,
        first_payment: EsdtTokenPayment,
        second_payment: EsdtTokenPayment,
    ) -> (r: Result<(Address, PairCall), Error>)
        requires
            self.config.wf(),
        ensures
            caller@ != owner@ ==> r == Err::<(Address, PairCall), Error>(Error::OnlyOwner),
            caller@ == owner@ && !has_key(self.config.pair_map@, g_pair@) ==> r == Err::<(Address, PairCall), Error>(
                Error::UnrecognizedGPair,
            ),
            caller@ == owner@ && has_key(self.config.pair_map@, g_pair@) ==> {
                let p = self.config.pair(g_pair@);
                &&& first_payment.token_identifier@ != p.first_token_id ==> r == Err::<(Address, PairCall), Error>(
                    Error::InvalidFirstTokenPayment,
                )
                &&& first_payment.token_identifier@ == p.first_token_id && second_payment.token_identifier@
                    != p.second_token_id ==> r == Err::<(Address, PairCall), Error>(Error::InvalidSecondTokenPayment)
                &&& first_payment.token_identifier@ == p.first_token_id && second_payment.token_identifier@
                    == p.second_token_id ==> {
                    &&& r matches Ok((to, call))
                    &&& to@ == p.address
                    &&& call matches PairCall::AddInitialLiquidity { first_payment: f, second_payment: s }
                    &&& payment_view(&f) == payment_view(&first_payment)
                    &&& payment_view(&s) == payment_view(&second_payment)
                }
            },
    {
        require_owner(caller, owner)?;
        let pair_info = self.config.get_pair_info(g_pair)?;
        if !first_payment.token_identifier.same(&pair_info.tokens.first_token_id) {
            return Err(Error::InvalidFirstTokenPayment);
        }
        if !second_payment.token_identifier.same(&pair_info.tokens.second_token_id) {
            return Err(Error::InvalidSecondTokenPayment);
        }
        Ok((pair_info.address, PairCall::AddInitialLiquidity { first_payment, second_payment }))
    }

    /// Initial liquidity, second step: the pair answered the LP tokens
    /// `lp_payment` and used `second_payment_optimal` of the second token.
    /// As much GToken is minted; it is accounted against the pair (see
    /// [`Config::add_g_supply`]) and kept as dust. Returns the minted GToken.
    pub fn pair_add_initial_liquidity_complete(
        &mut self,
        g_pair: &TokenId,
        lp_payment: &EsdtTokenPayment,
        second_payment_optimal: &EsdtTokenPayment,
    ) -> (r: Result<EsdtTokenPayment, Error>)
        requires
            old(self).config.wf(),
            old(self).config.pair_map@.len() <= u32::MAX,
        ensures
            old(self).config.supply_consistent() ==> final(self).config.supply_consistent(),
            final(self).config.wf(),
            r is Err ==> *final(self) == *old(self),
            !(old(self).config.g_token is Token) ==> r == Err::<EsdtTokenPayment, Error>(Error::InvalidTokenId),
            old(self).config.g_token is Token && !has_key(old(self).config.pair_map@, g_pair@) ==> r == Err::<
                EsdtTokenPayment,
                Error,
            >(Error::PairInfoNotFound),
            old(self).config.g_token is Token && has_key(old(self).config.pair_map@, g_pair@) ==> {
                let p = old(self).config.pair(g_pair@);
                let g_amount = second_payment_optimal.amount@;
                let gt = token_of(old(self).config.g_token);
                &&& p.lp_token_id != placeholder_lp_id_bytes() && p.lp_token_id != lp_payment.token_identifier@ ==> r
                    == Err::<EsdtTokenPayment, Error>(Error::PairLpTokenIdMismatch)
                &&& (p.lp_token_id == placeholder_lp_id_bytes() || p.lp_token_id == lp_payment.token_identifier@) ==> {
                    &&& r matches Ok(minted)
                    &&& payment_view(&minted) == (gt, 0u64, g_amount)
                    &&& final(self).config.g_token_supply@ == old(self).config.g_token_supply@ + g_amount
                    &&& has_key(final(self).config.pair_map@, g_pair@)
                    &&& final(self).config.pair(g_pair@) == (PairInfoView {
                        g_token_supply: p.g_token_supply + g_amount,
                        lp_token_supply: p.lp_token_supply + lp_payment.amount@,
                        lp_token_id: lp_payment.token_identifier@,
                        ..p
                    })
                    &&& Config::other_pairs_unchanged(&old(self).config, &final(self).config, g_pair@)
                    &&& forall|t: Seq<u8>| #[trigger] final(self).config.dust(t) == old(self).config.dust(t) + dust_part(
                        t,
                        gt,
                        g_amount,
                    )
                    &&& final(self).config.g_token == old(self).config.g_token
                    &&& final(self).config.base_pair == old(self).config.base_pair
                    &&& final(self).config.router_addr == old(self).config.router_addr
                }
            },
    {
        let g_token_id = match &self.config.g_token {
            TokenMapperState::Token(id) => id.duplicate(),
            _ => {
                return Err(Error::InvalidTokenId);
            },
        };
        let g_amount = second_payment_optimal.amount.duplicate();
        let _user_amount = self.config.add_g_supply(g_pair, &g_amount, lp_payment)?;
        self.config.add_dust(&g_token_id, &g_amount);
        Ok(EsdtTokenPayment::new(g_token_id, 0, g_amount))
    }
}

} // verus!
