//! The GToken contract: GToken is minted against liquidity added to a DEX
//! pair through the contract, and burnt to take that liquidity back.
//!
//! Minting and burning call the pair contract several times and decide
//! between the calls. Each decision is a function here, from the state of
//! the operation and the answer of the last call to the next state and the
//! next call; the caller of the library makes the calls and passes the
//! answers back. A refusal at any stage fails the whole transaction, which
//! the chain reverts.

use crate::amount::Amount;
use crate::config::{
    dust_part, placeholder_lp_id_bytes, spec_pair_fee_ratio, spec_user_g_amount, Config, PairInfo, PairInfoView,
};
use crate::error::Error;
use crate::keyed::has_key;
use crate::liquidity_pool::{require_owner, IssueRequest};
use crate::pair_interactions::{pair_get_tokens_for_given_position, pair_swap_fixed_input, PairCall};
use crate::router_interaction::require_router_addr_valid;
use crate::slippage::{apply, from_ref, spec_apply_slippage, valid_slippage};
use crate::token::{payment_view, valid_esdt_identifier, Address, EsdtTokenPayment, TokenId, TokenMapperState};
use vstd::prelude::*;

verus! {

/// The least deposit that GToken can be minted with.
pub const MIN_MINT_DEPOSIT: u64 = 4_000;

/// The storage of the GToken contract.
pub struct GToken {
    pub config: Config,
}

/// The identifiers of the base pair token and of the GPair that an
/// operation with `known_pair_id` (and the GPair `opt_g_pair`, when given)
/// concerns, or why the operation is refused: GToken itself may not be used,
/// and the GPair may not be the base pair token.
pub open spec fn spec_base_and_g_pair_id(config: &Config, opt_g_pair: Option<Seq<u8>>, known_pair_id: Seq<u8>) -> Result<
    (Seq<u8>, Seq<u8>),
    Error,
> {
    match config.g_token {
        TokenMapperState::Token(g) => if known_pair_id == g@ {
            Err(Error::ForbiddenUseOfGToken)
        } else {
            match config.base_pair {
                TokenMapperState::Token(b) => {
                    let g_pair = match opt_g_pair {
                        Some(p) => p,
                        None => known_pair_id,
                    };
                    if g_pair == b@ {
                        Err(Error::SpecifyGPairId)
                    } else {
                        Ok((b@, g_pair))
                    }
                },
                _ => Err(Error::InvalidTokenId),
            }
        },
        _ => Err(Error::InvalidTokenId),
    }
}

/// The plain value of an optional token identifier.
pub open spec fn opt_token_view(t: Option<TokenId>) -> Option<Seq<u8>> {
    match t {
        Some(id) => Some(id@),
        None => None,
    }
}

/// The plain value of a result of two identifiers.
pub open spec fn ids_result_view(r: Result<(TokenId, TokenId), Error>) -> Result<(Seq<u8>, Seq<u8>), Error> {
    match r {
        Ok((a, b)) => Ok((a@, b@)),
        Err(e) => Err(e),
    }
}

/// The identifier held by a token slot, where there is one.
pub open spec fn token_of(state: TokenMapperState) -> Seq<u8> {
    match state {
        TokenMapperState::Token(id) => id@,
        _ => Seq::empty(),
    }
}

/// Mint, waiting for the amount that half the deposit swaps for.
pub struct MintQuote {
    pub caller: Address,
    pub slippage: u64,
    pub base_pair_id: TokenId,
    pub g_pair_id: TokenId,
    pub pair_address: Address,
    /// Half of the deposit: one half is swapped, the other added.
    pub sent_payment: EsdtTokenPayment,
}

/// Mint, waiting for the swap of half the deposit.
pub struct MintSwap {
    pub quote: MintQuote,
    /// Whether the deposit is of the base pair token.
    pub sent_is_base: bool,
}

/// What a swap answers: a fixed-input swap the tokens bought; a
/// fixed-output swap the tokens bought and the unspent input.
pub enum SwapResult {
    FixedInput(EsdtTokenPayment),
    FixedOutput(EsdtTokenPayment, EsdtTokenPayment),
}

/// Mint, waiting for the equivalent of the least amount of the swapped
/// tokens.
pub struct MintEquivalent {
    pub quote: MintQuote,
    pub sent_is_base: bool,
    /// The tokens the swap bought.
    pub swapped: EsdtTokenPayment,
    /// The unspent input of a fixed-output swap.
    pub swap_dust: Option<EsdtTokenPayment>,
    /// The swapped amount less the slippage.
    pub token_amount_min: Amount,
}

/// Mint, waiting for the liquidity to be added.
pub struct MintAddLiquidity {
    pub quote: MintQuote,
    pub swap_dust: Option<EsdtTokenPayment>,
    pub first_token_sent: Amount,
    pub second_token_sent: Amount,
}

/// Mint, waiting for the tokens that the received LP tokens stand for.
pub struct MintPosition {
    pub quote: MintQuote,
    pub swap_dust: Option<EsdtTokenPayment>,
    pub first_token_sent: Amount,
    pub second_token_sent: Amount,
    pub lp_payment: EsdtTokenPayment,
    pub first_payment_optimal: EsdtTokenPayment,
    pub second_payment_optimal: EsdtTokenPayment,
}

/// A finished mint: `minted` GToken are minted, of which `user_payment`
/// goes to `caller`; the rest is kept as dust.
pub struct MintOutcome {
    pub caller: Address,
    pub minted: EsdtTokenPayment,
    pub user_payment: EsdtTokenPayment,
}

/// Burn, waiting for the tokens that the freed LP tokens stand for.
pub struct BurnPosition {
    pub caller: Address,
    pub receipt_token_id: TokenId,
    pub slippage: u64,
    pub pair_address: Address,
    pub lp_payment: EsdtTokenPayment,
}

/// Burn, waiting for the liquidity to be removed.
pub struct BurnRemove {
    pub caller: Address,
    pub receipt_token_id: TokenId,
    pub slippage: u64,
    pub pair_address: Address,
}

/// Burn, waiting for the swap of the other token into the receipt token.
pub struct BurnSwap {
    pub caller: Address,
    pub receipt_token_payment: EsdtTokenPayment,
}

impl GToken {
    /// The storage before deployment.
    pub fn new() -> (r: GToken)
        ensures
            r.config.wf(),
            r.config.g_token is NotSet,
            r.config.base_pair is NotSet,
            r.config.g_token_supply@ == 0,
            r.config.pair_map@.len() == 0,
            r.config.token_dust@.len() == 0,
            r.config.router_addr is None,
    {
        GToken { config: Config::new() }
    }

    /// Stores the router address unless one is stored (refused when it is
    /// not a smart contract; `addr_is_sc` is the chain's answer).
    pub fn set_router_addr(&mut self, addr: &Address, addr_is_sc: bool) -> (r: Result<(), Error>)
        ensures
            old(self).config.supply_consistent() ==> final(self).config.supply_consistent(),
            !addr_is_sc ==> r == Err::<(), Error>(Error::InvalidRouterAddress) && *final(self) == *old(self),
            addr_is_sc ==> r is Ok,
            addr_is_sc && old(self).config.router_addr is None ==> (final(self).config.router_addr matches Some(a)
                && a@ == addr@),
            addr_is_sc && old(self).config.router_addr is Some ==> *final(self) == *old(self),
            final(self).config.pair_map == old(self).config.pair_map,
            final(self).config.token_dust == old(self).config.token_dust,
            final(self).config.g_token_supply == old(self).config.g_token_supply,
            final(self).config.g_token == old(self).config.g_token,
            final(self).config.base_pair == old(self).config.base_pair,
    {
        require_router_addr_valid(addr_is_sc)?;
        if self.config.router_addr.is_none() {
            self.config.router_addr = Some(addr.duplicate());
        }
        Ok(())
    }

    /// The router to call; `stored_is_sc` is the chain's answer for the
    /// stored address. Without a stored address the storage does not decode.
    pub fn call_router(&self, stored_is_sc: bool) -> (r: Result<Address, Error>)
        ensures
            self.config.router_addr is None ==> r == Err::<Address, Error>(Error::StorageDecode),
            self.config.router_addr is Some && !stored_is_sc ==> r == Err::<Address, Error>(Error::InvalidRouterAddress),
            self.config.router_addr is Some && stored_is_sc ==> (r matches Ok(a) && a@ == self.config.router_addr->0@),
    {
        match &self.config.router_addr {
            None => Err(Error::StorageDecode),
            Some(a) => {
                require_router_addr_valid(stored_is_sc)?;
                Ok(a.duplicate())
            },
        }
    }

    /// Deployment: stores the router (which must be a smart contract) and
    /// the base pair token (which must have the ESDT format), each unless
    /// already set.
    pub fn init(&mut self, router_addr: &Address, router_is_sc: bool, base_pair_id: &TokenId) -> (r: Result<(), Error>)
        ensures
            old(self).config.supply_consistent() ==> final(self).config.supply_consistent(),
            !router_is_sc ==> r == Err::<(), Error>(Error::InvalidRouterAddress),
            router_is_sc && old(self).config.base_pair is NotSet && !valid_esdt_identifier(base_pair_id@) ==> r
                == Err::<(), Error>(Error::InvalidTokenId),
            r is Err ==> *final(self) == *old(self),
            router_is_sc && !(old(self).config.base_pair is NotSet && !valid_esdt_identifier(base_pair_id@)) ==> {
                &&& r is Ok
                &&& old(self).config.router_addr is None ==> (final(self).config.router_addr matches Some(a) && a@
                    == router_addr@)
                &&& old(self).config.router_addr is Some ==> final(self).config.router_addr == old(self).config.router_addr
                &&& old(self).config.base_pair is NotSet ==> (final(self).config.base_pair matches TokenMapperState::Token(id) && id@ == base_pair_id@)
                &&& !(old(self).config.base_pair is NotSet) ==> final(self).config.base_pair == old(self).config.base_pair
                &&& final(self).config.pair_map == old(self).config.pair_map
                &&& final(self).config.token_dust == old(self).config.token_dust
                &&& final(self).config.g_token_supply == old(self).config.g_token_supply
                &&& final(self).config.g_token == old(self).config.g_token
            },
    {
        require_router_addr_valid(router_is_sc)?;
        if let TokenMapperState::NotSet = self.config.base_pair {
            if !base_pair_id.is_valid_esdt_identifier() {
                return Err(Error::InvalidTokenId);
            }
        }
        let _ = self.set_router_addr(router_addr, router_is_sc);
        let _ = self.config.set_base_pair(base_pair_id);
        Ok(())
    }

    /// Owner only: asks to issue GToken with `num_decimals` decimals, paying
    /// `payment_amount` eGLD; the issue is then under way. A token issued or
    /// being issued is not issued again.
    pub fn register_g_token(
        &mut self,
        caller: &Address,
        owner: &Address,
        payment_amount: Amount,
        token_display_name: Vec<u8>,
        token_ticker: Vec<u8>,
        num_decimals: usize,
    ) -> (r: Result<IssueRequest, Error>)
        ensures
            old(self).config.supply_consistent() ==> final(self).config.supply_consistent(),
            caller@ != owner@ ==> r == Err::<IssueRequest, Error>(Error::OnlyOwner),
            caller@ == owner@ && old(self).config.g_token is Pending ==> r == Err::<IssueRequest, Error>(
                Error::IssueAlreadyCalled,
            ),
            caller@ == owner@ && old(self).config.g_token is Token ==> r == Err::<IssueRequest, Error>(
                Error::TokenIdAlreadySet,
            ),
            r is Err ==> *final(self) == *old(self),
            caller@ == owner@ && old(self).config.g_token is NotSet ==> {
                &&& r matches Ok(req)
                &&& req.issue_cost@ == payment_amount@
                &&& req.token_display_name@ == token_display_name@
                &&& req.token_ticker@ == token_ticker@
                &&& req.num_decimals == num_decimals
                &&& final(self).config.g_token is Pending
                &&& final(self).config.base_pair == old(self).config.base_pair
                &&& final(self).config.pair_map == old(self).config.pair_map
                &&& final(self).config.token_dust == old(self).config.token_dust
                &&& final(self).config.g_token_supply == old(self).config.g_token_supply
                &&& final(self).config.router_addr == old(self).config.router_addr
            },
    {
        require_owner(caller, owner)?;
        match &self.config.g_token {
            TokenMapperState::Pending => {
                return Err(Error::IssueAlreadyCalled);
            },
            TokenMapperState::Token(_) => {
                return Err(Error::TokenIdAlreadySet);
            },
            TokenMapperState::NotSet => {},
        }
        self.config.g_token = TokenMapperState::Pending;
        Ok(IssueRequest { issue_cost: payment_amount, token_display_name, token_ticker, num_decimals })
    }

    /// The base pair token and the GPair that an operation with a payment
    /// of `known_pair_id` concerns (see [`spec_base_and_g_pair_id`]).
    pub fn get_base_and_g_pair_id(&self, opt_g_pair: Option<TokenId>, known_pair_id: &TokenId) -> (r: Result<
        (TokenId, TokenId),
        Error,
    >)
        ensures
            ids_result_view(r) == spec_base_and_g_pair_id(&self.config, opt_token_view(opt_g_pair), known_pair_id@),
    {
        let g_token_id = match &self.config.g_token {
            TokenMapperState::Token(id) => id,
            _ => {
                return Err(Error::InvalidTokenId);
            },
        };
        if known_pair_id.same(g_token_id) {
            return Err(Error::ForbiddenUseOfGToken);
        }
        let base_pair_id = match &self.config.base_pair {
            TokenMapperState::Token(id) => id.duplicate(),
            _ => {
                return Err(Error::InvalidTokenId);
            },
        };
        let g_pair_id = match opt_g_pair {
            Some(p) => p,
            None => known_pair_id.duplicate(),
        };
        if g_pair_id.same(&base_pair_id) {
            return Err(Error::SpecifyGPairId);
        }
        Ok((base_pair_id, g_pair_id))
    }
}

/// The plain value of an optional payment.
pub open spec fn opt_payment_view(p: Option<EsdtTokenPayment>) -> Option<(Seq<u8>, u64, nat)> {
    match p {
        Some(q) => Some(payment_view(&q)),
        None => None,
    }
}

/// The GToken that a mint creates: the base pair side of the position that
/// the received LP tokens stand for.
pub open spec fn spec_minted_g_amount(base: Seq<u8>, first_pos: &EsdtTokenPayment, second_pos: &EsdtTokenPayment) -> Option<nat> {
    if first_pos.token_identifier@ == base {
        Some(first_pos.amount@)
    } else if second_pos.token_identifier@ == base {
        Some(second_pos.amount@)
    } else {
        None
    }
}

impl GToken {
    /// Mint, first step: a deposit of `sent_payment` (at least
    /// `MIN_MINT_DEPOSIT`) into the GPair `opt_g_pair` (or the deposit's own
    /// pair). Half the deposit is set aside, and the pair is asked how much
    /// of the other token that half swaps for.
    pub fn mint_begin(
        &self,
        caller: &Address,
        sent_payment: EsdtTokenPayment,
        slippage: u64,
        opt_g_pair: Option<TokenId>,
    ) -> (r: Result<(MintQuote, PairCall), Error>)
        requires
            self.config.wf(),
        ensures
            sent_payment.amount@ < MIN_MINT_DEPOSIT ==> r == Err::<(MintQuote, PairCall), Error>(
                Error::InsufficientLiquidityDeposit,
            ),
            sent_payment.amount@ >= MIN_MINT_DEPOSIT ==> match spec_base_and_g_pair_id(
                &self.config,
                opt_token_view(opt_g_pair),
                sent_payment.token_identifier@,
            ) {
                Err(e) => r == Err::<(MintQuote, PairCall), Error>(e),
                Ok((b, g)) => {
                    &&& !has_key(self.config.pair_map@, g) ==> r == Err::<(MintQuote, PairCall), Error>(
                        Error::UnrecognizedGPair,
                    )
                    &&& has_key(self.config.pair_map@, g) ==> {
                        &&& r matches Ok((q, call))
                        &&& q.caller@ == caller@
                        &&& q.slippage == slippage
                        &&& q.base_pair_id@ == b
                        &&& q.g_pair_id@ == g
                        &&& q.pair_address@ == self.config.pair(g).address
                        &&& payment_view(&q.sent_payment) == (
                            sent_payment.token_identifier@,
                            sent_payment.token_nonce,
                            sent_payment.amount@ / 2,
                        )
                        &&& call matches PairCall::GetAmountOutView { token_in, amount_in }
                        &&& token_in@ == sent_payment.token_identifier@
                        &&& amount_in@ == sent_payment.amount@ / 2
                    }
                },
            },
    {
        if !sent_payment.amount.ge_u64(MIN_MINT_DEPOSIT) {
            return Err(Error::InsufficientLiquidityDeposit);
        }
        let mut sent_payment = sent_payment;
        sent_payment.amount = sent_payment.amount.div_u64(2);
        let (base_pair_id, g_pair_id) = self.get_base_and_g_pair_id(
            opt_g_pair,
            &sent_payment.token_identifier,
        )?;
        let pair_info = self.config.get_pair_info(&g_pair_id)?;
        let call = PairCall::GetAmountOutView {
            token_in: sent_payment.token_identifier.duplicate(),
            amount_in: sent_payment.amount.duplicate(),
        };
        Ok((
            MintQuote {
                caller: caller.duplicate(),
                slippage,
                base_pair_id,
                g_pair_id,
                pair_address: pair_info.address,
                sent_payment,
            },
            call,
        ))
    }

    /// Mint, second step: the half deposit swaps for `amount_out`. Less the
    /// slippage, that is the least to accept: a deposit of the base pair
    /// token buys GPair tokens with all of the half, any other deposit buys
    /// exactly that much of the base pair token.
    pub fn mint_swap(quote: MintQuote, amount_out: &Amount) -> (r: Result<(MintSwap, PairCall), Error>)
        ensures
            !valid_slippage(quote.slippage) ==> r == Err::<(MintSwap, PairCall), Error>(Error::InvalidSlippage),
            valid_slippage(quote.slippage) ==> {
                let min_out = spec_apply_slippage(amount_out@, quote.slippage);
                &&& r matches Ok((s, call))
                &&& s.quote == quote
                &&& s.sent_is_base == (quote.sent_payment.token_identifier@ == quote.base_pair_id@)
                &&& s.sent_is_base ==> (call matches PairCall::SwapTokensFixedInput { token_out, amount_out_min, payment }
                    && token_out@ == quote.g_pair_id@ && amount_out_min@ == min_out && payment_view(&payment)
                    == payment_view(&quote.sent_payment))
                &&& !s.sent_is_base ==> (call matches PairCall::SwapTokensFixedOutput { token_out, amount_out: out, payment }
                    && token_out@ == quote.base_pair_id@ && out@ == min_out && payment_view(&payment)
                    == payment_view(&quote.sent_payment))
            },
    {
        let mut amount_out = amount_out.duplicate();
        apply(&mut amount_out, quote.slippage)?;
        let sent_is_base = quote.sent_payment.token_identifier.same(&quote.base_pair_id);
        let call = if sent_is_base {
            pair_swap_fixed_input(&quote.g_pair_id, amount_out, quote.sent_payment.duplicate())
        } else {
            crate::pair_interactions::pair_swap_fixed_output(
                &quote.base_pair_id,
                amount_out,
                quote.sent_payment.duplicate(),
            )
        };
        Ok((MintSwap { quote, sent_is_base }, call))
    }

    /// Mint, third step: the swap bought `result`. The least to accept of
    /// the bought tokens is their amount less the slippage, and the pair is
    /// asked what that is worth in the other token. A fixed-output swap's
    /// unspent input becomes dust.
    pub fn mint_after_swap(state: MintSwap, result: SwapResult) -> (r: Result<(MintEquivalent, PairCall), Error>)
        ensures
            (state.sent_is_base && !(result is FixedInput)) || (!state.sent_is_base && !(result is FixedOutput))
                ==> r == Err::<(MintEquivalent, PairCall), Error>(Error::UnexpectedCallResult),
            !valid_slippage(state.quote.slippage) ==> r is Err,
            valid_slippage(state.quote.slippage) ==> match result {
                SwapResult::FixedInput(p) => state.sent_is_base ==> {
                    &&& r matches Ok((e, call))
                    &&& e.quote == state.quote
                    &&& e.sent_is_base
                    &&& payment_view(&e.swapped) == payment_view(&p)
                    &&& e.swap_dust is None
                    &&& e.token_amount_min@ == spec_apply_slippage(p.amount@, state.quote.slippage)
                    &&& call matches PairCall::GetEquivalent { token_in, amount_in }
                    &&& token_in@ == p.token_identifier@
                    &&& amount_in@ == e.token_amount_min@
                },
                SwapResult::FixedOutput(p, d) => !state.sent_is_base ==> {
                    &&& r matches Ok((e, call))
                    &&& e.quote == state.quote
                    &&& !e.sent_is_base
                    &&& payment_view(&e.swapped) == payment_view(&p)
                    &&& opt_payment_view(e.swap_dust) == Some(payment_view(&d))
                    &&& e.token_amount_min@ == spec_apply_slippage(p.amount@, state.quote.slippage)
                    &&& call matches PairCall::GetEquivalent { token_in, amount_in }
                    &&& token_in@ == p.token_identifier@
                    &&& amount_in@ == e.token_amount_min@
                },
            },
    {
        let (swapped, swap_dust) = match result {
            SwapResult::FixedInput(p) => {
                if !state.sent_is_base {
                    return Err(Error::UnexpectedCallResult);
                }
                (p, None)
            },
            SwapResult::FixedOutput(p, d) => {
                if state.sent_is_base {
                    return Err(Error::UnexpectedCallResult);
                }
                (p, Some(d))
            },
        };
        let token_amount_min = from_ref(&swapped.amount, state.quote.slippage)?;
        let call = PairCall::GetEquivalent {
            token_in: swapped.token_identifier.duplicate(),
            amount_in: token_amount_min.duplicate(),
        };
        Ok((
            MintEquivalent {
                quote: state.quote,
                sent_is_base: state.sent_is_base,
                swapped,
                swap_dust,
                token_amount_min,
            },
            call,
        ))
    }

    /// Mint, fourth step: the least amount of the bought tokens is worth
    /// `other_amount_min` of the other. Both least amounts must be non-zero;
    /// the bought tokens and the set-aside half are then added as
    /// liquidity, the GPair token first.
    pub fn mint_after_equivalent(state: MintEquivalent, other_amount_min: Amount) -> (r: Result<
        (MintAddLiquidity, PairCall),
        Error,
    >)
        ensures
            state.token_amount_min@ == 0 || other_amount_min@ == 0 ==> r == Err::<(MintAddLiquidity, PairCall), Error>(
                Error::InvalidSlippageAmountCombination,
            ),
            state.token_amount_min@ > 0 && other_amount_min@ > 0 ==> {
                let (first, first_min, second, second_min) = if state.sent_is_base {
                    (state.swapped, state.token_amount_min@, state.quote.sent_payment, other_amount_min@)
                } else {
                    (state.quote.sent_payment, other_amount_min@, state.swapped, state.token_amount_min@)
                };
                &&& r matches Ok((a, call))
                &&& a.quote == state.quote
                &&& a.swap_dust == state.swap_dust
                &&& a.first_token_sent@ == first.amount@
                &&& a.second_token_sent@ == second.amount@
                &&& call matches PairCall::AddLiquidity {
                    first_token_amount_min: fm,
                    second_token_amount_min: sm,
                    first_payment: fp,
                    second_payment: sp,
                }
                &&& fm@ == first_min
                &&& sm@ == second_min
                &&& payment_view(&fp) == payment_view(&first)
                &&& payment_view(&sp) == payment_view(&second)
            },
    {
        if state.token_amount_min.is_zero() || other_amount_min.is_zero() {
            return Err(Error::InvalidSlippageAmountCombination);
        }
        let (first_payment, first_min, second_payment, second_min) = if state.sent_is_base {
            (state.swapped.duplicate(), state.token_amount_min.duplicate(), state.quote.sent_payment.duplicate(), other_amount_min)
        } else {
            (state.quote.sent_payment.duplicate(), other_amount_min, state.swapped.duplicate(), state.token_amount_min.duplicate())
        };
        let first_token_sent = first_payment.amount.duplicate();
        let second_token_sent = second_payment.amount.duplicate();
        let call = PairCall::AddLiquidity {
            first_token_amount_min: first_min,
            second_token_amount_min: second_min,
            first_payment,
            second_payment,
        };
        Ok((
            MintAddLiquidity {
                quote: state.quote,
                swap_dust: state.swap_dust,
                first_token_sent,
                second_token_sent,
            },
            call,
        ))
    }

    /// Mint, fifth step: the liquidity was added for `lp_payment`, using
    /// `first_payment_optimal` and `second_payment_optimal`; the pair is
    /// asked what the LP tokens stand for.
    pub fn mint_after_add_liquidity(
        state: MintAddLiquidity,
        lp_payment: EsdtTokenPayment,
        first_payment_optimal: EsdtTokenPayment,
        second_payment_optimal: EsdtTokenPayment,
    ) -> (r: (MintPosition, PairCall))
        ensures
            r.0.quote == state.quote,
            r.0.swap_dust == state.swap_dust,
            r.0.first_token_sent == state.first_token_sent,
            r.0.second_token_sent == state.second_token_sent,
            r.0.lp_payment == lp_payment,
            r.0.first_payment_optimal == first_payment_optimal,
            r.0.second_payment_optimal == second_payment_optimal,
            r.1 matches PairCall::GetTokensForGivenPosition { liquidity } && liquidity@ == lp_payment.amount@,
    {
        let call = pair_get_tokens_for_given_position(&lp_payment.amount);
        (
            MintPosition {
                quote: state.quote,
                swap_dust: state.swap_dust,
                first_token_sent: state.first_token_sent,
                second_token_sent: state.second_token_sent,
                lp_payment,
                first_payment_optimal,
                second_payment_optimal,
            },
            call,
        )
    }
}

impl GToken {
    /// Mint, last step: the LP tokens stand for `first_pos` and
    /// `second_pos`. The base pair side of them is the GToken to mint; it is
    /// accounted against the GPair with the LP tokens (see
    /// [`Config::add_g_supply`]), the user gets it less the pair's fee, and
    /// the fee, the liquidity the pair did not use and a swap's unspent input
    /// become dust.
    pub fn mint_finish(&mut self, state: MintPosition, first_pos: &EsdtTokenPayment, second_pos: &EsdtTokenPayment) -> (r:
        Result<MintOutcome, Error>)
        requires
            old(self).config.wf(),
            old(self).config.pair_map@.len() <= u32::MAX,
        ensures
            old(self).config.supply_consistent() ==> final(self).config.supply_consistent(),
            final(self).config.wf(),
            r is Err ==> *final(self) == *old(self),
            spec_minted_g_amount(state.quote.base_pair_id@, first_pos, second_pos) is None ==> r == Err::<
                MintOutcome,
                Error,
            >(Error::InvalidPositionTokens),
            match spec_minted_g_amount(state.quote.base_pair_id@, first_pos, second_pos) {
                None => true,
                Some(g_amount) => {
                    let g_pair = state.quote.g_pair_id@;
                    let lp = state.lp_payment;
                    let first_opt = state.first_payment_optimal;
                    let second_opt = state.second_payment_optimal;
                    let issued = old(self).config.g_token is Token;
                    let known = has_key(old(self).config.pair_map@, g_pair);
                    let lp_fits = old(self).config.pair(g_pair).lp_token_id == placeholder_lp_id_bytes()
                        || old(self).config.pair(g_pair).lp_token_id == lp.token_identifier@;
                    let first_fits = first_opt.amount@ <= state.first_token_sent@;
                    let second_fits = second_opt.amount@ <= state.second_token_sent@;
                    &&& !issued ==> r == Err::<MintOutcome, Error>(Error::InvalidTokenId)
                    &&& issued && !known ==> r == Err::<MintOutcome, Error>(Error::PairInfoNotFound)
                    &&& issued && known && !lp_fits ==> r == Err::<MintOutcome, Error>(Error::PairLpTokenIdMismatch)
                    &&& issued && known && lp_fits && !first_fits ==> r == Err::<MintOutcome, Error>(Error::SubNegative)
                    &&& issued && known && lp_fits && first_fits && !second_fits ==> r == Err::<MintOutcome, Error>(
                        Error::SubNegative,
                    )
                    &&& issued && known && lp_fits && first_fits && second_fits ==> {
                        let fee = spec_pair_fee_ratio(old(self).config.spec_g_ratio_of(g_pair));
                        let user = spec_user_g_amount(g_amount, fee);
                        let gt = token_of(old(self).config.g_token);
                        &&& r matches Ok(out)
                        &&& out.caller@ == state.quote.caller@
                        &&& payment_view(&out.minted) == (gt, 0u64, g_amount)
                        &&& payment_view(&out.user_payment) == (gt, 0u64, user)
                        &&& user <= g_amount
                        &&& final(self).config.g_token_supply@ == old(self).config.g_token_supply@ + g_amount
                        &&& has_key(final(self).config.pair_map@, g_pair)
                        &&& final(self).config.pair(g_pair) == (PairInfoView {
                            g_token_supply: old(self).config.pair(g_pair).g_token_supply + g_amount,
                            lp_token_supply: old(self).config.pair(g_pair).lp_token_supply + lp.amount@,
                            lp_token_id: lp.token_identifier@,
                            ..old(self).config.pair(g_pair)
                        })
                        &&& Config::other_pairs_unchanged(&old(self).config, &final(self).config, g_pair)
                        &&& forall|t: Seq<u8>| #[trigger] final(self).config.dust(t) == old(self).config.dust(t) + (
                            match state.swap_dust {
                                Some(d) => dust_part(t, d.token_identifier@, d.amount@),
                                None => 0,
                            }) + dust_part(
                            t,
                            first_opt.token_identifier@,
                            (state.first_token_sent@ - first_opt.amount@) as nat,
                        ) + dust_part(
                            t,
                            second_opt.token_identifier@,
                            (state.second_token_sent@ - second_opt.amount@) as nat,
                        ) + dust_part(t, gt, (g_amount - user) as nat)
                        &&& final(self).config.g_token == old(self).config.g_token
                        &&& final(self).config.base_pair == old(self).config.base_pair
                        &&& final(self).config.router_addr == old(self).config.router_addr
                    }
                },
            },
    {
        let g_amount = if first_pos.token_identifier.same(&state.quote.base_pair_id) {
            first_pos.amount.duplicate()
        } else if second_pos.token_identifier.same(&state.quote.base_pair_id) {
            second_pos.amount.duplicate()
        } else {
            return Err(Error::InvalidPositionTokens);
        };
        let g_token_id = match &self.config.g_token {
            TokenMapperState::Token(id) => id.duplicate(),
            _ => {
                return Err(Error::InvalidTokenId);
            },
        };
        let g_pair = &state.quote.g_pair_id;
        let lp = &state.lp_payment;
        let pair_info = match self.config.get_pair_info(g_pair) {
            Ok(p) => p,
            Err(_) => {
                return Err(Error::PairInfoNotFound);
            },
        };
        if !(pair_info.lp_token_id.same(&PairInfo::placeholder_lp_id()) || pair_info.lp_token_id.same(
            &lp.token_identifier,
        )) {
            return Err(Error::PairLpTokenIdMismatch);
        }
        let first_dust = match state.first_token_sent.checked_sub(&state.first_payment_optimal.amount) {
            Some(v) => v,
            None => {
                return Err(Error::SubNegative);
            },
        };
        let second_dust = match state.second_token_sent.checked_sub(&state.second_payment_optimal.amount) {
            Some(v) => v,
            None => {
                return Err(Error::SubNegative);
            },
        };
        let ghost c0 = self.config;
        let user_amt = match self.config.add_g_supply(g_pair, &g_amount, lp) {
            Ok(v) => v,
            Err(e) => {
                return Err(e);
            },
        };
        let mint_fee = g_amount.sub(&user_amt);
        let ghost c1 = self.config;
        match &state.swap_dust {
            Some(d) => {
                self.config.add_dust(&d.token_identifier, &d.amount);
            },
            None => {},
        }
        let ghost c2 = self.config;
        self.config.add_dust(&state.first_payment_optimal.token_identifier, &first_dust);
        let ghost c3 = self.config;
        self.config.add_dust(&state.second_payment_optimal.token_identifier, &second_dust);
        let ghost c4 = self.config;
        self.config.add_dust(&g_token_id, &mint_fee);
        proof {
            assert forall|t: Seq<u8>| #[trigger] self.config.dust(t) == c0.dust(t) + (match state.swap_dust {
                Some(d) => dust_part(t, d.token_identifier@, d.amount@),
                None => 0,
            }) + dust_part(t, state.first_payment_optimal.token_identifier@, first_dust@) + dust_part(
                t,
                state.second_payment_optimal.token_identifier@,
                second_dust@,
            ) + dust_part(t, g_token_id@, mint_fee@) by {
                assert(c1.dust(t) == c0.dust(t));
                assert(c3.dust(t) == c2.dust(t) + dust_part(t, state.first_payment_optimal.token_identifier@, first_dust@));
                assert(c4.dust(t) == c3.dust(t) + dust_part(t, state.second_payment_optimal.token_identifier@, second_dust@));
            }
        }
        let minted = EsdtTokenPayment::new(g_token_id.duplicate(), 0, g_amount);
        let user_payment = EsdtTokenPayment::new(g_token_id, 0, user_amt);
        Ok(MintOutcome { caller: state.quote.caller, minted, user_payment })
    }
}

impl GToken {
    /// Burn, first step: `g_token_payment` GToken is paid back to get
    /// `receipt_token_id` out of the GPair `opt_g_pair` (or the receipt
    /// token's own pair). The payment must be GToken and may not exceed the
    /// pair's GToken supply; it is burnt (see [`Config::remove_g_supply`])
    /// and the pair is asked what the freed LP tokens stand for.
    pub fn burn_begin(
        &mut self,
        caller: &Address,
        receipt_token_id: TokenId,
        slippage: u64,
        opt_g_pair: Option<TokenId>,
        g_token_payment: &EsdtTokenPayment,
    ) -> (r: Result<(BurnPosition, PairCall), Error>)
        requires
            old(self).config.wf(),
        ensures
            old(self).config.supply_consistent() ==> final(self).config.supply_consistent(),
            final(self).config.wf(),
            r is Err ==> *final(self) == *old(self),
            match spec_base_and_g_pair_id(&old(self).config, opt_token_view(opt_g_pair), receipt_token_id@) {
                Err(e) => r == Err::<(BurnPosition, PairCall), Error>(e),
                Ok((b, g)) => {
                    let known = has_key(old(self).config.pair_map@, g);
                    let p = old(self).config.pair(g);
                    let amount = g_token_payment.amount@;
                    let is_g_token = g_token_payment.token_identifier@ == token_of(old(self).config.g_token);
                    &&& !known ==> r == Err::<(BurnPosition, PairCall), Error>(Error::UnrecognizedGPair)
                    &&& known && !is_g_token ==> r == Err::<(BurnPosition, PairCall), Error>(Error::InvalidPaymentToken)
                    &&& known && is_g_token && amount > p.g_token_supply ==> r == Err::<(BurnPosition, PairCall), Error>(
                        Error::GTokenBurnAmountExceeded,
                    )
                    &&& known && is_g_token && amount <= p.g_token_supply && amount > old(self).config.g_token_supply@
                        ==> r == Err::<(BurnPosition, PairCall), Error>(Error::SubNegative)
                    &&& known && is_g_token && amount <= p.g_token_supply && amount <= old(self).config.g_token_supply@
                        && p.g_token_supply == 0 ==> r == Err::<(BurnPosition, PairCall), Error>(Error::DivisionByZero)
                    &&& known && is_g_token && amount <= p.g_token_supply && amount <= old(self).config.g_token_supply@
                        && p.g_token_supply > 0 ==> {
                        let lp = crate::config::spec_lp_share(amount, p.lp_token_supply, p.g_token_supply);
                        &&& r matches Ok((state, call))
                        &&& state.caller@ == caller@
                        &&& state.receipt_token_id@ == receipt_token_id@
                        &&& state.slippage == slippage
                        &&& state.pair_address@ == p.address
                        &&& payment_view(&state.lp_payment) == (p.lp_token_id, 0u64, lp)
                        &&& call matches PairCall::GetTokensForGivenPosition { liquidity } && liquidity@ == lp
                        &&& final(self).config.g_token_supply@ == old(self).config.g_token_supply@ - amount
                        &&& has_key(final(self).config.pair_map@, g)
                        &&& final(self).config.pair(g) == (PairInfoView {
                            g_token_supply: (p.g_token_supply - amount) as nat,
                            lp_token_supply: (p.lp_token_supply - lp) as nat,
                            ..p
                        })
                        &&& Config::other_pairs_unchanged(&old(self).config, &final(self).config, g)
                        &&& final(self).config.token_dust == old(self).config.token_dust
                        &&& final(self).config.g_token == old(self).config.g_token
                        &&& final(self).config.base_pair == old(self).config.base_pair
                        &&& final(self).config.router_addr == old(self).config.router_addr
                    }
                },
            },
    {
        let (_base_pair_id, g_pair_id) = self.get_base_and_g_pair_id(opt_g_pair, &receipt_token_id)?;
        let pair_info = self.config.get_pair_info(&g_pair_id)?;
        let g_token_id = match &self.config.g_token {
            TokenMapperState::Token(id) => id,
            _ => {
                return Err(Error::InvalidTokenId);
            },
        };
        if !g_token_id.same(&g_token_payment.token_identifier) {
            return Err(Error::InvalidPaymentToken);
        }
        if !g_token_payment.amount.le(&pair_info.g_token_supply) {
            return Err(Error::GTokenBurnAmountExceeded);
        }
        let lp_payment = self.config.remove_g_supply(&g_pair_id, g_token_payment)?;
        let call = pair_get_tokens_for_given_position(&lp_payment.amount);
        Ok((
            BurnPosition {
                caller: caller.duplicate(),
                receipt_token_id,
                slippage,
                pair_address: pair_info.address,
                lp_payment,
            },
            call,
        ))
    }

    /// Burn, second step: the LP tokens stand for `first_pos` and
    /// `second_pos`; the liquidity is removed, accepting each amount less
    /// the slippage.
    pub fn burn_after_position(state: BurnPosition, first_pos: &EsdtTokenPayment, second_pos: &EsdtTokenPayment) -> (r:
        Result<(BurnRemove, PairCall), Error>)
        ensures
            !valid_slippage(state.slippage) ==> r == Err::<(BurnRemove, PairCall), Error>(Error::InvalidSlippage),
            valid_slippage(state.slippage) ==> {
                &&& r matches Ok((next, call))
                &&& next.caller == state.caller
                &&& next.receipt_token_id == state.receipt_token_id
                &&& next.slippage == state.slippage
                &&& next.pair_address == state.pair_address
                &&& call matches PairCall::RemoveLiquidity {
                    first_token_amount_min: fm,
                    second_token_amount_min: sm,
                    payment,
                }
                &&& fm@ == spec_apply_slippage(first_pos.amount@, state.slippage)
                &&& sm@ == spec_apply_slippage(second_pos.amount@, state.slippage)
                &&& payment_view(&payment) == payment_view(&state.lp_payment)
            },
    {
        let first_token_amount_min = from_ref(&first_pos.amount, state.slippage)?;
        let second_token_amount_min = from_ref(&second_pos.amount, state.slippage)?;
        let call = PairCall::RemoveLiquidity {
            first_token_amount_min,
            second_token_amount_min,
            payment: state.lp_payment,
        };
        Ok((
            BurnRemove {
                caller: state.caller,
                receipt_token_id: state.receipt_token_id,
                slippage: state.slippage,
                pair_address: state.pair_address,
            },
            call,
        ))
    }

    /// Burn, third step: the liquidity came back as `first_received` and
    /// `second_received`, one of which must be the receipt token; the other
    /// is swapped into it, accepting the receipt amount less the slippage.
    pub fn burn_after_remove(state: BurnRemove, first_received: EsdtTokenPayment, second_received: EsdtTokenPayment) -> (r:
        Result<(BurnSwap, PairCall), Error>)
        ensures
            first_received.token_identifier@ != state.receipt_token_id@ && second_received.token_identifier@
                != state.receipt_token_id@ ==> r == Err::<(BurnSwap, PairCall), Error>(Error::UnexpectedLiquidityTokens),
            first_received.token_identifier@ == state.receipt_token_id@ || second_received.token_identifier@
                == state.receipt_token_id@ ==> {
                let (receipt, other) = if first_received.token_identifier@ == state.receipt_token_id@ {
                    (first_received, second_received)
                } else {
                    (second_received, first_received)
                };
                &&& !valid_slippage(state.slippage) ==> r == Err::<(BurnSwap, PairCall), Error>(Error::InvalidSlippage)
                &&& valid_slippage(state.slippage) ==> {
                    &&& r matches Ok((next, call))
                    &&& next.caller == state.caller
                    &&& payment_view(&next.receipt_token_payment) == payment_view(&receipt)
                    &&& call matches PairCall::SwapTokensFixedInput { token_out, amount_out_min, payment }
                    &&& token_out@ == receipt.token_identifier@
                    &&& amount_out_min@ == spec_apply_slippage(receipt.amount@, state.slippage)
                    &&& payment_view(&payment) == payment_view(&other)
                }
            },
    {
        let (receipt_token_payment, other_token_payment) = if first_received.token_identifier.same(
            &state.receipt_token_id,
        ) {
            (first_received, second_received)
        } else if second_received.token_identifier.same(&state.receipt_token_id) {
            (second_received, first_received)
        } else {
            return Err(Error::UnexpectedLiquidityTokens);
        };
        let amount_out_min = from_ref(&receipt_token_payment.amount, state.slippage)?;
        let call = pair_swap_fixed_input(
            &receipt_token_payment.token_identifier,
            amount_out_min,
            other_token_payment,
        );
        Ok((BurnSwap { caller: state.caller, receipt_token_payment }, call))
    }

    /// Burn, last step: the swap bought `swapped`, which must be the
    /// receipt token; the caller receives the receipt tokens of the
    /// liquidity together with the swapped ones.
    pub fn burn_finish(state: BurnSwap, swapped: &EsdtTokenPayment) -> (r: Result<(Address, EsdtTokenPayment), Error>)
        ensures
            swapped.token_identifier@ != state.receipt_token_payment.token_identifier@ ==> r == Err::<
                (Address, EsdtTokenPayment),
                Error,
            >(Error::SwappedTokenMismatch),
            swapped.token_identifier@ == state.receipt_token_payment.token_identifier@ ==> {
                &&& r matches Ok((to, payment))
                &&& to == state.caller
                &&& payment_view(&payment) == (
                    state.receipt_token_payment.token_identifier@,
                    state.receipt_token_payment.token_nonce,
                    state.receipt_token_payment.amount@ + swapped.amount@,
                )
            },
    {
        if !swapped.token_identifier.same(&state.receipt_token_payment.token_identifier) {
            return Err(Error::SwappedTokenMismatch);
        }
        let mut receipt = state.receipt_token_payment;
        receipt.amount = receipt.amount.add(&swapped.amount);
        Ok((state.caller, receipt))
    }
}

} // verus!
