//! The GToken contract's bookkeeping: per pair, the GToken minted against
//! it and the LP tokens it holds; the fee that minting pays.

use crate::amount::Amount;
use crate::error::Error;
use crate::keyed::{
    add_to_amount, amount_of, find_key, has_key, key_index, keys_distinct, lemma_key_index_unique,
    lemma_same_keys,
};
use crate::math::{linear_interpolation, spec_linear_interpolation};
use crate::token::{valid_esdt_identifier, Address, EsdtTokenPayment, TokenId, TokenMapperState};
use vstd::prelude::*;

verus! {

/// The two tokens of a DEX pair.
pub struct PairTokens {
    pub first_token_id: TokenId,
    pub second_token_id: TokenId,
}

impl PairTokens {
    pub fn duplicate(&self) -> (r: PairTokens)
        ensures
            r.first_token_id@ == self.first_token_id@,
            r.second_token_id@ == self.second_token_id@,
    {
        PairTokens {
            first_token_id: self.first_token_id.duplicate(),
            second_token_id: self.second_token_id.duplicate(),
        }
    }
}

/// What the GToken contract records of one pair.
pub struct PairInfo {
    /// GToken minted against this pair and not burnt.
    pub g_token_supply: Amount,
    /// LP tokens of the pair that the contract holds.
    pub lp_token_supply: Amount,
    /// The pair's LP token; a placeholder until the first LP payment.
    pub lp_token_id: TokenId,
    pub tokens: PairTokens,
    pub address: crate::token::Address,
}

/// The bytes of `Pending`, the LP token identifier of a new pair.
pub open spec fn placeholder_lp_id_bytes() -> Seq<u8> {
    seq![80u8, 101u8, 110u8, 100u8, 105u8, 110u8, 103u8]
}

/// The plain value of a pair record.
pub struct PairInfoView {
    pub g_token_supply: nat,
    pub lp_token_supply: nat,
    pub lp_token_id: Seq<u8>,
    pub first_token_id: Seq<u8>,
    pub second_token_id: Seq<u8>,
    pub address: Seq<u8>,
}

impl View for PairInfo {
    type V = PairInfoView;

    open spec fn view(&self) -> PairInfoView {
        PairInfoView {
            g_token_supply: self.g_token_supply@,
            lp_token_supply: self.lp_token_supply@,
            lp_token_id: self.lp_token_id@,
            first_token_id: self.tokens.first_token_id@,
            second_token_id: self.tokens.second_token_id@,
            address: self.address@,
        }
    }
}

/// The LP tokens that burning `g_amount` of a pair's `g_supply` GToken frees,
/// of its `lp_supply`: the same share, rounded down.
pub open spec fn spec_lp_share(g_amount: nat, lp_supply: nat, g_supply: nat) -> nat {
    g_amount * lp_supply / g_supply
}

/// The share is never more than the whole.
pub proof fn lemma_lp_share_bounded(g_amount: nat, lp_supply: nat, g_supply: nat)
    requires
        0 < g_supply,
        g_amount <= g_supply,
    ensures
        spec_lp_share(g_amount, lp_supply, g_supply) <= lp_supply,
{
    assert(g_amount * lp_supply <= g_supply * lp_supply) by (nonlinear_arith)
        requires
            g_amount <= g_supply,
    ;
    assert((g_amount * lp_supply) / g_supply <= (g_supply * lp_supply) / g_supply) by (nonlinear_arith)
        requires
            g_amount * lp_supply <= g_supply * lp_supply,
            0 < g_supply,
    ;
    assert((g_supply * lp_supply) / g_supply == lp_supply) by (nonlinear_arith)
        requires
            0 < g_supply,
    ;
}

impl PairInfo {
    /// A new pair record: no supply, placeholder LP token.
    pub fn new(tokens: PairTokens, address: crate::token::Address) -> (r: PairInfo)
        ensures
            r@.g_token_supply == 0,
            r@.lp_token_supply == 0,
            r@.lp_token_id == placeholder_lp_id_bytes(),
            r@.first_token_id == tokens.first_token_id@,
            r@.second_token_id == tokens.second_token_id@,
            r@.address == address@,
    {
        PairInfo {
            g_token_supply: Amount::zero(),
            lp_token_supply: Amount::zero(),
            lp_token_id: Self::placeholder_lp_id(),
            tokens,
            address,
        }
    }

    pub fn duplicate(&self) -> (r: PairInfo)
        ensures
            r@ == self@,
    {
        PairInfo {
            g_token_supply: self.g_token_supply.duplicate(),
            lp_token_supply: self.lp_token_supply.duplicate(),
            lp_token_id: self.lp_token_id.duplicate(),
            tokens: self.tokens.duplicate(),
            address: self.address.duplicate(),
        }
    }

    /// Whether `token_id` is the pair's LP token.
    pub fn check_lp_id(&self, token_id: &TokenId) -> (r: bool)
        ensures
            r == (self.lp_token_id@ == token_id@),
    {
        self.lp_token_id.same(token_id)
    }

    /// Burning `g_amount` GToken of the pair: the pair's GToken supply
    /// shrinks by it and its LP supply by the same share, which is returned
    /// as an LP payment. More than the supply is refused, as is a pair
    /// without supply (the share would divide by zero).
    pub fn take_tokens_from_supply(&mut self, g_amount: &Amount) -> (r: Result<EsdtTokenPayment, Error>)
        ensures
            g_amount@ > old(self)@.g_token_supply ==> r == Err::<EsdtTokenPayment, Error>(Error::GTokenAmountTooLarge),
            g_amount@ <= old(self)@.g_token_supply && old(self)@.g_token_supply == 0 ==> r == Err::<
                EsdtTokenPayment,
                Error,
            >(Error::DivisionByZero),
            r is Err ==> final(self)@ == old(self)@,
            g_amount@ <= old(self)@.g_token_supply && old(self)@.g_token_supply > 0 ==> {
                let lp = spec_lp_share(g_amount@, old(self)@.lp_token_supply, old(self)@.g_token_supply);
                &&& r matches Ok(p)
                &&& p.token_identifier@ == old(self)@.lp_token_id
                &&& p.token_nonce == 0
                &&& p.amount@ == lp
                &&& final(self)@ == (PairInfoView {
                    g_token_supply: (old(self)@.g_token_supply - g_amount@) as nat,
                    lp_token_supply: (old(self)@.lp_token_supply - lp) as nat,
                    ..old(self)@
                })
            },
    {
        if self.g_token_supply.lt(g_amount) {
            return Err(Error::GTokenAmountTooLarge);
        }
        if self.g_token_supply.is_zero() {
            return Err(Error::DivisionByZero);
        }
        let lp_amount = g_amount.mul(&self.lp_token_supply).div(&self.g_token_supply);
        proof {
            lemma_lp_share_bounded(g_amount@, self.lp_token_supply@, self.g_token_supply@);
        }
        self.lp_token_supply = self.lp_token_supply.sub(&lp_amount);
        self.g_token_supply = self.g_token_supply.sub(g_amount);
        Ok(EsdtTokenPayment::new(self.lp_token_id.duplicate(), 0, lp_amount))
    }

    /// `Pending`.
    pub fn placeholder_lp_id() -> (r: TokenId)
        ensures
            r@ == placeholder_lp_id_bytes(),
    {
        let bytes: Vec<u8> = vec![80u8, 101u8, 110u8, 100u8, 105u8, 110u8, 103u8];
        proof {
            assert(bytes@ =~= placeholder_lp_id_bytes());
        }
        TokenId::new(bytes)
    }

    /// The first LP token checked becomes the pair's LP token; afterwards
    /// only that token passes the check.
    pub fn set_or_check_lp_id(&mut self, token_id: &TokenId) -> (r: bool)
        ensures
            old(self)@.lp_token_id == placeholder_lp_id_bytes() ==> r && final(self)@ == (PairInfoView {
                lp_token_id: token_id@,
                ..old(self)@
            }),
            old(self)@.lp_token_id != placeholder_lp_id_bytes() ==> r == (old(self)@.lp_token_id == token_id@)
                && final(self)@ == old(self)@,
    {
        if self.lp_token_id.same(&Self::placeholder_lp_id()) {
            self.lp_token_id = token_id.duplicate();
            return true;
        }
        self.check_lp_id(token_id)
    }
}

/// A GToken ratio, in thousandths.
pub type GRatio = u16;

/// A pair's GToken ratio together with the pair's token.
pub struct GRatioExtreme(pub TokenId, pub GRatio);

/// The GToken ratio of a pair that holds exactly its share (1.000).
pub const G_RATIO_BALANCE_FACTOR: GRatio = 1_000;

/// 0.10%
pub const MIN_FEE: u32 = 10;
/// 5.00%
pub const AVG_FEE: u32 = 5_00;
/// 65.53%
pub const MAX_FEE: u32 = 65_53;
/// 100.00%
pub const FEE_DIVISION_CONSTANT: u32 = 10_000;

/// GToken per pair: the supply shared by the number of pairs, at least one.
pub open spec fn spec_g_tokens_per_pair(g_token_supply: nat, pair_count: nat) -> nat {
    let share = g_token_supply / pair_count;
    if share <= 1 {
        1
    } else {
        share
    }
}

/// A pair's GToken ratio: its GToken supply over the GToken per pair, in
/// thousandths, rounded down and kept within `1..=u16::MAX` (a larger
/// ratio saturates at `u16::MAX`).
pub open spec fn spec_pair_g_ratio(pair_g_supply: nat, g_token_supply: nat, pair_count: nat) -> nat {
    if pair_g_supply <= 1 {
        1
    } else {
        let ratio = pair_g_supply * (G_RATIO_BALANCE_FACTOR as nat) / spec_g_tokens_per_pair(
            g_token_supply,
            pair_count,
        );
        if ratio < 1 {
            1
        } else if ratio > 0xffff {
            0xffff
        } else {
            ratio
        }
    }
}

/// The minting fee of a pair with GToken ratio `g_ratio`, in hundredths of
/// a percent: from `MIN_FEE` to `AVG_FEE` over ratios up to the balance,
/// from just above `AVG_FEE` to `MAX_FEE` beyond it.
pub open spec fn spec_pair_fee_ratio(g_ratio: nat) -> nat {
    if g_ratio <= G_RATIO_BALANCE_FACTOR {
        spec_linear_interpolation(1, G_RATIO_BALANCE_FACTOR as nat, g_ratio, MIN_FEE as nat, AVG_FEE as nat)
    } else {
        spec_linear_interpolation(
            (G_RATIO_BALANCE_FACTOR + 1) as nat,
            0xffff,
            g_ratio,
            (AVG_FEE + 1) as nat,
            MAX_FEE as nat,
        )
    }
}

/// What the user keeps of `g_supply` newly minted GToken after the fee.
pub open spec fn spec_user_g_amount(g_supply: nat, fee_ratio: nat) -> nat {
    g_supply * ((FEE_DIVISION_CONSTANT - fee_ratio) as nat) / (FEE_DIVISION_CONSTANT as nat)
}

/// What an addition of `amount` to the dust of `token` adds to the dust of `t`.
pub open spec fn dust_part(t: Seq<u8>, token: Seq<u8>, amount: nat) -> nat {
    if t == token {
        amount
    } else {
        0
    }
}

/// The GToken minted against all the pairs.
pub open spec fn pairs_g_total(s: Seq<(TokenId, PairInfo)>) -> nat
    decreases s.len(),
{
    if s.len() == 0 {
        0
    } else {
        pairs_g_total(s.drop_last()) + s.last().1.g_token_supply@
    }
}

/// Replacing one record changes the total by the change of its supply.
pub proof fn lemma_pairs_g_total_update(s: Seq<(TokenId, PairInfo)>, i: int, e: (TokenId, PairInfo))
    requires
        0 <= i < s.len(),
    ensures
        pairs_g_total(s.update(i, e)) + s[i].1.g_token_supply@ == pairs_g_total(s) + e.1.g_token_supply@,
    decreases s.len(),
{
    if i == s.len() - 1 {
        assert(s.update(i, e).drop_last() =~= s.drop_last());
    } else {
        lemma_pairs_g_total_update(s.drop_last(), i, e);
        assert(s.update(i, e).drop_last() =~= s.drop_last().update(i, e));
    }
}

/// Adding a record adds its supply to the total.
pub proof fn lemma_pairs_g_total_push(s: Seq<(TokenId, PairInfo)>, e: (TokenId, PairInfo))
    ensures
        pairs_g_total(s.push(e)) == pairs_g_total(s) + e.1.g_token_supply@,
{
    assert(s.push(e).drop_last() =~= s);
}

/// The storage of the GToken contract's configuration.
pub struct Config {
    /// The GToken.
    pub g_token: TokenMapperState,
    /// The token every pair is paired with.
    pub base_pair: TokenMapperState,
    /// All GToken minted and not burnt.
    pub g_token_supply: Amount,
    /// The pairs, keyed by the GPair token.
    pub pair_map: Vec<(TokenId, PairInfo)>,
    /// Leftovers kept by the contract, per token.
    pub token_dust: Vec<(TokenId, Amount)>,
    pub router_addr: Option<Address>,
}

impl Config {
    /// Keys of the pair map and of the dust are distinct.
    pub open spec fn wf(&self) -> bool {
        &&& keys_distinct(self.pair_map@)
        &&& keys_distinct(self.token_dust@)
    }

    /// The GToken supply is the sum of the pairs' GToken supplies.
    pub open spec fn supply_consistent(&self) -> bool {
        self.g_token_supply@ == pairs_g_total(self.pair_map@)
    }

    /// The record of the pair `g_pair`.
    pub open spec fn pair(&self, g_pair: Seq<u8>) -> PairInfoView {
        self.pair_map@[key_index(self.pair_map@, g_pair)].1@
    }

    /// The dust held of `token`.
    pub open spec fn dust(&self, token: Seq<u8>) -> nat {
        amount_of(self.token_dust@, token)
    }

    /// The GToken ratio of the existing pair `g_pair`.
    pub open spec fn spec_g_ratio_of(&self, g_pair: Seq<u8>) -> nat {
        spec_pair_g_ratio(self.pair(g_pair).g_token_supply, self.g_token_supply@, self.pair_map@.len())
    }

    /// An empty configuration.
    pub fn new() -> (r: Config)
        ensures
            r.wf(),
            r.g_token is NotSet,
            r.base_pair is NotSet,
            r.g_token_supply@ == 0,
            r.pair_map@.len() == 0,
            r.token_dust@.len() == 0,
            r.router_addr is None,
            r.supply_consistent(),
    {
        Config {
            g_token: TokenMapperState::NotSet,
            base_pair: TokenMapperState::NotSet,
            g_token_supply: Amount::zero(),
            pair_map: Vec::new(),
            token_dust: Vec::new(),
            router_addr: None,
        }
    }

    /// Adds `amt` to the dust held of `token_id`.
    pub fn add_dust(&mut self, token_id: &TokenId, amt: &Amount)
        requires
            old(self).wf(),
        ensures
            old(self).supply_consistent() ==> final(self).supply_consistent(),
            final(self).wf(),
            final(self).dust(token_id@) == old(self).dust(token_id@) + amt@,
            forall|other: Seq<u8>| other != token_id@ ==> final(self).dust(other) == old(self).dust(other),
            forall|t: Seq<u8>| #[trigger] final(self).dust(t) == old(self).dust(t) + dust_part(t, token_id@, amt@),
            final(self).pair_map == old(self).pair_map,
            final(self).g_token_supply == old(self).g_token_supply,
            final(self).g_token == old(self).g_token,
            final(self).base_pair == old(self).base_pair,
            final(self).router_addr == old(self).router_addr,
    {
        add_to_amount(&mut self.token_dust, token_id, amt);
    }

    /// Sets the base pair token, unless one is set or being issued already;
    /// an identifier not in the ESDT format is refused.
    pub fn set_base_pair(&mut self, token_id: &TokenId) -> (r: Result<(), Error>)
        ensures
            old(self).supply_consistent() ==> final(self).supply_consistent(),
            old(self).base_pair is NotSet && !valid_esdt_identifier(token_id@) ==> r == Err::<(), Error>(
                Error::InvalidTokenId,
            ) && *final(self) == *old(self),
            old(self).base_pair is NotSet && valid_esdt_identifier(token_id@) ==> r is Ok && (final(self).base_pair matches TokenMapperState::Token(id) && id@ == token_id@),
            !(old(self).base_pair is NotSet) ==> r is Ok && *final(self) == *old(self),
            final(self).pair_map == old(self).pair_map,
            final(self).token_dust == old(self).token_dust,
            final(self).g_token_supply == old(self).g_token_supply,
            final(self).g_token == old(self).g_token,
            final(self).router_addr == old(self).router_addr,
    {
        if let TokenMapperState::NotSet = self.base_pair {
            if !token_id.is_valid_esdt_identifier() {
                return Err(Error::InvalidTokenId);
            }
            self.base_pair = TokenMapperState::Token(token_id.duplicate());
        }
        Ok(())
    }

    /// The record of the pair `g_pair`; an unknown pair is refused.
    pub fn get_pair_info(&self, g_pair: &TokenId) -> (r: Result<PairInfo, Error>)
        requires
            self.wf(),
        ensures
            !has_key(self.pair_map@, g_pair@) ==> r == Err::<PairInfo, Error>(Error::UnrecognizedGPair),
            has_key(self.pair_map@, g_pair@) ==> (r matches Ok(p) && p@ == self.pair(g_pair@)),
    {
        match find_key(&self.pair_map, g_pair) {
            Some(i) => Ok(self.pair_map[i].1.duplicate()),
            None => Err(Error::UnrecognizedGPair),
        }
    }

    /// GToken per pair; refused while there are no pairs.
    pub fn g_tokens_per_pair(&self) -> (r: Result<Amount, Error>)
        requires
            self.pair_map@.len() <= u32::MAX,
        ensures
            self.pair_map@.len() == 0 ==> r == Err::<Amount, Error>(Error::NoAvailablePairs),
            self.pair_map@.len() > 0 ==> (r matches Ok(v) && v@ == spec_g_tokens_per_pair(
                self.g_token_supply@,
                self.pair_map@.len(),
            )),
    {
        let pair_count = self.pair_map.len();
        if pair_count == 0 {
            return Err(Error::NoAvailablePairs);
        }
        let g_ratio = self.g_token_supply.div_u64(pair_count as u64);
        if g_ratio.le(&Amount::from_u64(1)) {
            Ok(Amount::from_u64(1))
        } else {
            Ok(g_ratio)
        }
    }

    /// The GToken ratio of the pair `g_pair` (see [`spec_pair_g_ratio`]),
    /// from 1 to `u16::MAX`; an unknown pair is refused.
    pub fn pair_g_ratio(&self, g_pair: &TokenId) -> (r: Result<GRatio, Error>)
        requires
            self.wf(),
            self.pair_map@.len() <= u32::MAX,
        ensures
            !has_key(self.pair_map@, g_pair@) ==> r == Err::<GRatio, Error>(Error::PairInfoNotFound),
            has_key(self.pair_map@, g_pair@) ==> (r matches Ok(v) && v == self.spec_g_ratio_of(g_pair@)),
            r matches Ok(v) ==> 1 <= v,
    {
        let i = match find_key(&self.pair_map, g_pair) {
            Some(i) => i,
            None => {
                return Err(Error::PairInfoNotFound);
            },
        };
        let pair_g_supply = &self.pair_map[i].1.g_token_supply;
        if pair_g_supply.le(&Amount::from_u64(1)) {
            return Ok(1);
        }
        let g_tokens_per_pair = match self.g_tokens_per_pair() {
            Ok(v) => v,
            Err(e) => {
                return Err(e);
            },
        };
        let ratio = pair_g_supply.mul_u64(G_RATIO_BALANCE_FACTOR as u64).div(&g_tokens_per_pair);
        if !ratio.le(&Amount::from_u64(0xffff)) {
            return Ok(0xffff);
        }
        let small: u64 = match ratio.to_u64() {
            Some(v) => v,
            None => {
                return Ok(0xffff);
            },
        };
        if small < 1 {
            Ok(1)
        } else {
            Ok(small as u16)
        }
    }

    /// The minting fee of the pair `g_pair` (see [`spec_pair_fee_ratio`]);
    /// an unknown pair is refused.
    pub fn pair_fee_ratio(&self, g_pair: &TokenId) -> (r: Result<u32, Error>)
        requires
            self.wf(),
            self.pair_map@.len() <= u32::MAX,
        ensures
            !has_key(self.pair_map@, g_pair@) ==> r == Err::<u32, Error>(Error::PairInfoNotFound),
            has_key(self.pair_map@, g_pair@) ==> (r matches Ok(v) && v == spec_pair_fee_ratio(
                self.spec_g_ratio_of(g_pair@),
            )),
            r matches Ok(v) ==> v <= MAX_FEE,
    {
        let g_ratio = self.pair_g_ratio(g_pair)?;
        let g = g_ratio as u32;
        let res = if g_ratio <= G_RATIO_BALANCE_FACTOR {
            linear_interpolation(1, G_RATIO_BALANCE_FACTOR as u32, g, MIN_FEE, AVG_FEE)
        } else {
            linear_interpolation(G_RATIO_BALANCE_FACTOR as u32 + 1, 0xffff, g, AVG_FEE + 1, MAX_FEE)
        };
        proof {
            if g_ratio <= G_RATIO_BALANCE_FACTOR {
                crate::math::interpolation_stays_between_outputs(1, 1000, g as nat, 10, 500);
            } else {
                crate::math::interpolation_stays_between_outputs(1001, 0xffff, g as nat, 501, 6553);
            }
        }
        res
    }

    /// `new` holds the pairs of `old` with the same keys in the same places,
    /// and each record but the one of `k` unchanged.
    pub open spec fn other_pairs_unchanged(old: &Config, new: &Config, k: Seq<u8>) -> bool {
        &&& new.pair_map@.len() == old.pair_map@.len()
        &&& forall|j: int|
            0 <= j < old.pair_map@.len() ==> #[trigger] new.pair_map@[j].0@ == old.pair_map@[j].0@ && (
            old.pair_map@[j].0@ != k ==> new.pair_map@[j].1@ == old.pair_map@[j].1@)
    }

    /// Replaces the record at position `i` by `info`.
    fn set_pair_at(&mut self, i: usize, info: PairInfo)
        requires
            old(self).wf(),
            i < old(self).pair_map@.len(),
        ensures
            final(self).wf(),
            final(self).pair_map@ == old(self).pair_map@.update(
                i as int,
                (final(self).pair_map@[i as int].0, info),
            ),
            final(self).pair_map@[i as int].0@ == old(self).pair_map@[i as int].0@,
            forall|k: Seq<u8>| has_key(final(self).pair_map@, k) == has_key(old(self).pair_map@, k),
            forall|k: Seq<u8>|
                has_key(old(self).pair_map@, k) ==> key_index(final(self).pair_map@, k) == key_index(
                    old(self).pair_map@,
                    k,
                ),
            final(self).token_dust == old(self).token_dust,
            final(self).g_token_supply == old(self).g_token_supply,
            final(self).g_token == old(self).g_token,
            final(self).base_pair == old(self).base_pair,
            final(self).router_addr == old(self).router_addr,
    {
        let key = self.pair_map[i].0.duplicate();
        let ghost before = self.pair_map@;
        self.pair_map.set(i, (key, info));
        proof {
            lemma_same_keys(before, self.pair_map@);
        }
    }

    /// Accounts `g_supply` GToken newly minted against the pair `g_pair` for
    /// the LP tokens `lp_payment`: the GToken supply, the pair's GToken
    /// supply and the pair's LP supply grow by them, and the payment's token
    /// must be the pair's LP token (the first one seen becomes it). Returns
    /// the GToken the user gets after the pair's minting fee, computed before
    /// the supplies change. An unknown pair is refused.
    pub fn add_g_supply(&mut self, g_pair: &TokenId, g_supply: &Amount, lp_payment: &EsdtTokenPayment) -> (r:
        Result<Amount, Error>)
        requires
            old(self).wf(),
            old(self).pair_map@.len() <= u32::MAX,
        ensures
            old(self).supply_consistent() ==> final(self).supply_consistent(),
            final(self).wf(),
            r is Err ==> *final(self) == *old(self),
            !has_key(old(self).pair_map@, g_pair@) ==> r == Err::<Amount, Error>(Error::PairInfoNotFound),
            has_key(old(self).pair_map@, g_pair@) && old(self).pair(g_pair@).lp_token_id != placeholder_lp_id_bytes()
                && old(self).pair(g_pair@).lp_token_id != lp_payment.token_identifier@ ==> r == Err::<Amount, Error>(
                Error::PairLpTokenIdMismatch,
            ),
            has_key(old(self).pair_map@, g_pair@) && (old(self).pair(g_pair@).lp_token_id == placeholder_lp_id_bytes()
                || old(self).pair(g_pair@).lp_token_id == lp_payment.token_identifier@) ==> {
                &&& r matches Ok(v)
                &&& v@ == spec_user_g_amount(g_supply@, spec_pair_fee_ratio(old(self).spec_g_ratio_of(g_pair@)))
                &&& v@ <= g_supply@
                &&& final(self).g_token_supply@ == old(self).g_token_supply@ + g_supply@
                &&& has_key(final(self).pair_map@, g_pair@)
                &&& final(self).pair(g_pair@) == (PairInfoView {
                    g_token_supply: old(self).pair(g_pair@).g_token_supply + g_supply@,
                    lp_token_supply: old(self).pair(g_pair@).lp_token_supply + lp_payment.amount@,
                    lp_token_id: lp_payment.token_identifier@,
                    ..old(self).pair(g_pair@)
                })
                &&& Self::other_pairs_unchanged(old(self), final(self), g_pair@)
                &&& final(self).token_dust == old(self).token_dust
                &&& final(self).g_token == old(self).g_token
                &&& final(self).base_pair == old(self).base_pair
                &&& final(self).router_addr == old(self).router_addr
            },
    {
        let fee = match self.pair_fee_ratio(g_pair) {
            Ok(f) => f,
            Err(e) => {
                return Err(e);
            },
        };
        let user_fee_ratio = FEE_DIVISION_CONSTANT - fee;
        let i = match find_key(&self.pair_map, g_pair) {
            Some(i) => i,
            None => {
                return Err(Error::PairInfoNotFound);
            },
        };
        let mut pair_info = self.pair_map[i].1.duplicate();
        pair_info.g_token_supply = pair_info.g_token_supply.add(g_supply);
        if !pair_info.set_or_check_lp_id(&lp_payment.token_identifier) {
            return Err(Error::PairLpTokenIdMismatch);
        }
        pair_info.lp_token_supply = pair_info.lp_token_supply.add(&lp_payment.amount);
        let ghost old_pairs = self.pair_map@;
        self.g_token_supply = self.g_token_supply.add(g_supply);
        self.set_pair_at(i, pair_info);
        proof {
            lemma_pairs_g_total_update(old_pairs, i as int, self.pair_map@[i as int]);
            assert(self.pair_map@ =~= old_pairs.update(i as int, self.pair_map@[i as int]));
            lemma_key_index_unique(self.pair_map@, i as int);
            assert(g_supply@ * (user_fee_ratio as nat) / 10000 <= g_supply@) by (nonlinear_arith)
                requires
                    user_fee_ratio <= 10000,
            ;
        }
        Ok(g_supply.mul_u64(user_fee_ratio as u64).div_u64(FEE_DIVISION_CONSTANT as u64))
    }

    /// Burns `g_token_payment` GToken of the pair `g_pair`: the GToken supply
    /// shrinks by it and the pair gives up the LP tokens of the same share
    /// (see [`PairInfo::take_tokens_from_supply`]), which are returned. The
    /// GToken must be issued, the supply must cover the amount, and the pair
    /// must exist.
    pub fn remove_g_supply(&mut self, g_pair: &TokenId, g_token_payment: &EsdtTokenPayment) -> (r: Result<
        EsdtTokenPayment,
        Error,
    >)
        requires
            old(self).wf(),
        ensures
            old(self).supply_consistent() ==> final(self).supply_consistent(),
            final(self).wf(),
            r is Err ==> *final(self) == *old(self),
            !(old(self).g_token is Token) ==> r == Err::<EsdtTokenPayment, Error>(Error::InvalidTokenId),
            old(self).g_token is Token && g_token_payment.amount@ > old(self).g_token_supply@ ==> r == Err::<
                EsdtTokenPayment,
                Error,
            >(Error::SubNegative),
            old(self).g_token is Token && g_token_payment.amount@ <= old(self).g_token_supply@ && !has_key(
                old(self).pair_map@,
                g_pair@,
            ) ==> r == Err::<EsdtTokenPayment, Error>(Error::UnableToMakeLpPayment),
            old(self).g_token is Token && g_token_payment.amount@ <= old(self).g_token_supply@ && has_key(
                old(self).pair_map@,
                g_pair@,
            ) ==> {
                let p = old(self).pair(g_pair@);
                &&& g_token_payment.amount@ > p.g_token_supply ==> r == Err::<EsdtTokenPayment, Error>(
                    Error::GTokenAmountTooLarge,
                )
                &&& g_token_payment.amount@ <= p.g_token_supply && p.g_token_supply == 0 ==> r == Err::<
                    EsdtTokenPayment,
                    Error,
                >(Error::DivisionByZero)
                &&& g_token_payment.amount@ <= p.g_token_supply && p.g_token_supply > 0 ==> {
                    let lp = spec_lp_share(g_token_payment.amount@, p.lp_token_supply, p.g_token_supply);
                    &&& r matches Ok(lp_payment)
                    &&& lp_payment.token_identifier@ == p.lp_token_id
                    &&& lp_payment.token_nonce == 0
                    &&& lp_payment.amount@ == lp
                    &&& final(self).g_token_supply@ == old(self).g_token_supply@ - g_token_payment.amount@
                    &&& has_key(final(self).pair_map@, g_pair@)
                    &&& final(self).pair(g_pair@) == (PairInfoView {
                        g_token_supply: (p.g_token_supply - g_token_payment.amount@) as nat,
                        lp_token_supply: (p.lp_token_supply - lp) as nat,
                        ..p
                    })
                    &&& Self::other_pairs_unchanged(old(self), final(self), g_pair@)
                    &&& final(self).token_dust == old(self).token_dust
                    &&& final(self).g_token == old(self).g_token
                    &&& final(self).base_pair == old(self).base_pair
                    &&& final(self).router_addr == old(self).router_addr
                }
            },
    {
        if let TokenMapperState::Token(_) = &self.g_token {
        } else {
            return Err(Error::InvalidTokenId);
        }
        let g_token_amount = &g_token_payment.amount;
        let new_supply = match self.g_token_supply.checked_sub(g_token_amount) {
            Some(v) => v,
            None => {
                return Err(Error::SubNegative);
            },
        };
        let i = match find_key(&self.pair_map, g_pair) {
            Some(i) => i,
            None => {
                return Err(Error::UnableToMakeLpPayment);
            },
        };
        let mut pair_info = self.pair_map[i].1.duplicate();
        let lp_payment = pair_info.take_tokens_from_supply(g_token_amount)?;
        let ghost old_pairs = self.pair_map@;
        self.g_token_supply = new_supply;
        self.set_pair_at(i, pair_info);
        proof {
            lemma_pairs_g_total_update(old_pairs, i as int, self.pair_map@[i as int]);
            assert(self.pair_map@ =~= old_pairs.update(i as int, self.pair_map@[i as int]));
            lemma_key_index_unique(self.pair_map@, i as int);
        }
        Ok(lp_payment)
    }
}

/// The minting fee of any pair lies between `MIN_FEE` and `MAX_FEE`.
pub proof fn fee_ratio_is_within_bounds(g_ratio: nat)
    requires
        1 <= g_ratio <= 0xffff,
    ensures
        MIN_FEE <= spec_pair_fee_ratio(g_ratio) <= MAX_FEE,
{
    if g_ratio <= G_RATIO_BALANCE_FACTOR {
        crate::math::interpolation_stays_between_outputs(1, 1000, g_ratio, 10, 500);
    } else {
        crate::math::interpolation_stays_between_outputs(1001, 0xffff, g_ratio, 501, 6553);
    }
}

/// When each of `n` pairs holds the same `p` GToken of a supply of `p * n`,
/// every pair is exactly balanced, whatever the number of pairs: its ratio
/// is 1.000.
pub proof fn even_supply_gives_balanced_ratio(p: nat, n: nat)
    requires
        n >= 1,
        p >= 2,
    ensures
        spec_pair_g_ratio(p, p * n, n) == G_RATIO_BALANCE_FACTOR,
{
    assert((p * n) / n == p) by (nonlinear_arith)
        requires
            n >= 1,
    ;
    assert((p * 1000) / p == 1000) by (nonlinear_arith)
        requires
            p >= 2,
    ;
}

/// The same for the recorded configuration: where the GToken supply is the
/// supply of the pair `g_pair` once for every recorded pair, that pair's
/// ratio is 1.000.
pub proof fn evenly_held_pairs_are_balanced(c: Config, g_pair: Seq<u8>)
    requires
        c.pair_map@.len() >= 1,
        c.pair(g_pair).g_token_supply >= 2,
        c.g_token_supply@ == c.pair(g_pair).g_token_supply * c.pair_map@.len(),
    ensures
        c.spec_g_ratio_of(g_pair) == G_RATIO_BALANCE_FACTOR,
{
    even_supply_gives_balanced_ratio(c.pair(g_pair).g_token_supply, c.pair_map@.len());
}

/// A pair's ratio is its GToken supply `p` over the GToken per pair (the
/// supply `s` shared by the `n` pairs), in thousandths rounded down, kept
/// within `1..=u16::MAX`: strictly inside the range, `r` thousandths of the
/// GToken per pair fit in `p * 1000` and `r + 1` do not; the top of the
/// range is reached exactly when the share is that large, the bottom when
/// it is below two thousandths.
pub proof fn g_ratio_is_share_in_thousandths(p: nat, s: nat, n: nat)
    requires
        n >= 1,
        p >= 2,
        s >= 2 * n,
    ensures
        1 <= spec_pair_g_ratio(p, s, n) <= 0xffff,
        1 < spec_pair_g_ratio(p, s, n) < 0xffff ==> spec_pair_g_ratio(p, s, n) * (s / n) <= p * 1000 < (
        spec_pair_g_ratio(p, s, n) + 1) * (s / n),
        spec_pair_g_ratio(p, s, n) == 0xffff <==> p * 1000 >= 0xffff * (s / n),
        spec_pair_g_ratio(p, s, n) == 1 <==> p * 1000 < 2 * (s / n),
{
    let t = s / n;
    assert(t >= 2) by (nonlinear_arith)
        requires
            n >= 1,
            s >= 2 * n,
            t == s / n,
    ;
    assert(spec_g_tokens_per_pair(s, n) == t);
    let q = (p * 1000) / t;
    assert(q * t <= p * 1000 < (q + 1) * t) by (nonlinear_arith)
        requires
            t >= 2,
            q == (p * 1000) / t,
    ;
    assert(q >= 0xffff <==> p * 1000 >= 0xffff * t) by (nonlinear_arith)
        requires
            t >= 2,
            q * t <= p * 1000 < (q + 1) * t,
    ;
    assert(q <= 1 <==> p * 1000 < 2 * t) by (nonlinear_arith)
        requires
            t >= 2,
            q * t <= p * 1000 < (q + 1) * t,
    ;
}

/// The minting fee follows the line between its end points, rounded down:
/// from 0.10% at ratio 0.001 to 5.00% at the balance 1.000, then from 5.01%
/// at 1.001 to 65.53% at the top ratio 65.535.
pub proof fn fee_follows_the_line(r: nat)
    requires
        1 <= r <= 0xffff,
    ensures
        r <= 1000 ==> spec_pair_fee_ratio(r) * 999 <= 10 * ((1000 - r) as nat) + 500 * ((r - 1) as nat) < (
        spec_pair_fee_ratio(r) + 1) * 999,
        r > 1000 ==> spec_pair_fee_ratio(r) * 64534 <= 501 * ((0xffff - r) as nat) + 6553 * ((r - 1001) as nat) < (
        spec_pair_fee_ratio(r) + 1) * 64534,
{
    let f = spec_pair_fee_ratio(r);
    if r <= 1000 {
        let v = 10 * ((1000 - r) as nat) + 500 * ((r - 1) as nat);
        assert(f == v / 999);
        assert(f * 999 <= v < (f + 1) * 999) by (nonlinear_arith)
            requires
                f == v / 999,
        ;
    } else {
        let v = 501 * ((0xffff - r) as nat) + 6553 * ((r - 1001) as nat);
        assert(f == v / 64534);
        assert(f * 64534 <= v < (f + 1) * 64534) by (nonlinear_arith)
            requires
                f == v / 64534,
        ;
    }
}

/// The fee never falls as the ratio rises, and reaches `MAX_FEE` only at
/// the top ratio: every pair below the top pays less.
pub proof fn fee_rises_with_ratio(r1: nat, r2: nat)
    requires
        1 <= r1 <= r2 <= 0xffff,
    ensures
        spec_pair_fee_ratio(r1) <= spec_pair_fee_ratio(r2),
        r2 < 0xffff ==> spec_pair_fee_ratio(r2) < MAX_FEE,
        spec_pair_fee_ratio(0xffff) == MAX_FEE,
{
    fee_ratio_is_within_bounds(r1);
    fee_ratio_is_within_bounds(r2);
    let f1 = spec_pair_fee_ratio(r1);
    let f2 = spec_pair_fee_ratio(r2);
    if r2 <= 1000 {
        let v1 = 10 * ((1000 - r1) as nat) + 500 * ((r1 - 1) as nat);
        let v2 = 10 * ((1000 - r2) as nat) + 500 * ((r2 - 1) as nat);
        assert(v1 <= v2) by (nonlinear_arith)
            requires
                v1 == 10 * ((1000 - r1) as nat) + 500 * ((r1 - 1) as nat),
                v2 == 10 * ((1000 - r2) as nat) + 500 * ((r2 - 1) as nat),
                1 <= r1 <= r2 <= 1000,
        ;
        assert(v1 / 999 <= v2 / 999) by (nonlinear_arith)
            requires
                v1 <= v2,
        ;
    } else if r1 <= 1000 {
        crate::math::interpolation_stays_between_outputs(1, 1000, r1, 10, 500);
        crate::math::interpolation_stays_between_outputs(1001, 0xffff, r2, 501, 6553);
    } else {
        let v1 = 501 * ((0xffff - r1) as nat) + 6553 * ((r1 - 1001) as nat);
        let v2 = 501 * ((0xffff - r2) as nat) + 6553 * ((r2 - 1001) as nat);
        assert(v1 <= v2) by (nonlinear_arith)
            requires
                v1 == 501 * ((0xffff - r1) as nat) + 6553 * ((r1 - 1001) as nat),
                v2 == 501 * ((0xffff - r2) as nat) + 6553 * ((r2 - 1001) as nat),
                1001 <= r1 <= r2 <= 0xffff,
        ;
        assert(v1 / 64534 <= v2 / 64534) by (nonlinear_arith)
            requires
                v1 <= v2,
        ;
    }
    if 1000 < r2 < 0xffff {
        let v2 = 501 * ((0xffff - r2) as nat) + 6553 * ((r2 - 1001) as nat);
        assert(v2 < 6553 * 64534) by (nonlinear_arith)
            requires
                v2 == 501 * ((0xffff - r2) as nat) + 6553 * ((r2 - 1001) as nat),
                1001 <= r2 < 0xffff,
        ;
        assert(v2 / 64534 < 6553) by (nonlinear_arith)
            requires
                v2 < 6553 * 64534,
        ;
    }
    let top = 501 * ((0xffff - 0xffff) as nat) + 6553 * ((0xffff - 1001) as nat);
    assert(top == 6553 * 64534);
    assert(top / 64534 == 6553) by (nonlinear_arith)
        requires
            top == 6553 * 64534,
    ;
    assert(spec_pair_fee_ratio(0xffff) == top / 64534);
}

/// Burning all of a pair's GToken frees all of its LP tokens.
pub proof fn burning_whole_pair_supply_frees_all_lp(lp_supply: nat, g_supply: nat)
    requires
        g_supply > 0,
    ensures
        spec_lp_share(g_supply, lp_supply, g_supply) == lp_supply,
{
    assert((g_supply * lp_supply) / g_supply == lp_supply) by (nonlinear_arith)
        requires
            g_supply > 0,
    ;
}

} // verus!
