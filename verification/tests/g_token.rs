use cryptgain::amount::Amount;
use cryptgain::config::{PairInfo, PairTokens, GRatioExtreme};
use cryptgain::error::Error;
use cryptgain::g_token::{GToken, SwapResult};
use cryptgain::pair_interactions::PairCall;
use cryptgain::router_interaction::RouterCall;
use cryptgain::token::{Address, EsdtTokenPayment, TokenId, TokenMapperState};

const BASE_PAIR: &[u8] = b"BASETK-123456";
const G_TOKEN: &[u8] = b"GTK-123456";
const LS_TOKEN: &[u8] = b"LST-123456";
const LSLP_TOKEN: &[u8] = b"LSLP-123456";

fn addr(name: &str) -> Address {
    Address::new(name.as_bytes().to_vec())
}

fn id(bytes: &[u8]) -> TokenId {
    TokenId::new(bytes.to_vec())
}

fn amt(x: u64) -> Amount {
    Amount::from_u64(x)
}

fn val(a: &Amount) -> u64 {
    a.to_u64().unwrap()
}

fn pay(token: &[u8], x: u64) -> EsdtTokenPayment {
    EsdtTokenPayment::new(id(token), 0, amt(x))
}

/// The GToken contract deployed with the router, GToken issued and the
/// LST/BASETK pair created with its LP token issued.
fn setup() -> GToken {
    let owner = addr("address:owner");
    let mut g = GToken::new();
    g.init(&addr("sc:router"), true, &id(BASE_PAIR)).unwrap();
    g.register_g_token(&owner, &owner, amt(5), b"GToken".to_vec(), G_TOKEN.to_vec(), 18).unwrap();
    g.config.g_token = TokenMapperState::Token(id(G_TOKEN));
    let (req, router, call) = g.router_create_pair(&owner, &owner, id(LS_TOKEN), true).unwrap();
    assert_eq!(router.bytes, b"sc:router".to_vec());
    assert_eq!(call.endpoint_name(), "createPair");
    g.router_create_pair_complete(req, addr("sc:ls_base_pair")).unwrap();
    g
}

#[test]
fn mint_with_g_token() {
    let g = setup();
    let user = addr("address:user1");
    let r = g.mint_begin(&user, pay(G_TOKEN, 10_000), 1_50, None);
    assert_eq!(r.err().map(|e| e.message()), Some("Forbidden use of GToken"));
}

#[test]
fn burn_requesting_g_token() {
    let mut g = setup();
    let user = addr("address:user1");
    let r = g.burn_begin(&user, id(G_TOKEN), 2_50, None, &pay(G_TOKEN, 10_000));
    assert_eq!(r.err().map(|e| e.message()), Some("Forbidden use of GToken"));
}

#[test]
fn initial_liquidity_mints_g_token_as_dust() {
    let owner = addr("address:owner");
    let mut g = setup();
    let (to, call) = g
        .pair_add_initial_liquidity_begin(&owner, &owner, &id(LS_TOKEN), pay(LS_TOKEN, 400_000), pay(BASE_PAIR, 4_000_000))
        .unwrap();
    assert_eq!(to.bytes, b"sc:ls_base_pair".to_vec());
    assert_eq!(call.endpoint_name(), "addInitialLiquidity");
    let minted = g
        .pair_add_initial_liquidity_complete(&id(LS_TOKEN), &pay(LSLP_TOKEN, 399_000), &pay(BASE_PAIR, 4_000_000))
        .unwrap();
    assert_eq!(minted.token_identifier.bytes, G_TOKEN.to_vec());
    assert_eq!(val(&minted.amount), 4_000_000);
    assert_eq!(val(&g.config.g_token_supply), 4_000_000);
    let pair = g.config.get_pair_info(&id(LS_TOKEN)).unwrap();
    assert_eq!(val(&pair.g_token_supply), 4_000_000);
    assert_eq!(val(&pair.lp_token_supply), 399_000);
    assert!(pair.check_lp_id(&id(LSLP_TOKEN)));
    // one pair holding the whole supply has the balanced ratio
    assert_eq!(g.config.pair_g_ratio(&id(LS_TOKEN)), Ok(1_000));
    assert_eq!(g.config.pair_fee_ratio(&id(LS_TOKEN)), Ok(500));
    assert_eq!(
        g.pair_add_initial_liquidity_begin(&owner, &owner, &id(LS_TOKEN), pay(BASE_PAIR, 1), pay(BASE_PAIR, 1)).err(),
        Some(Error::InvalidFirstTokenPayment)
    );
    assert_eq!(
        g.pair_add_initial_liquidity_begin(&owner, &owner, &id(LS_TOKEN), pay(LS_TOKEN, 1), pay(LS_TOKEN, 1)).err(),
        Some(Error::InvalidSecondTokenPayment)
    );
    // another LP token for the pair is refused
    assert_eq!(
        g.pair_add_initial_liquidity_complete(&id(LS_TOKEN), &pay(b"XLP-123456", 1), &pay(BASE_PAIR, 1)).err(),
        Some(Error::PairLpTokenIdMismatch)
    );
}

fn with_liquidity() -> GToken {
    let mut g = setup();
    g.pair_add_initial_liquidity_complete(&id(LS_TOKEN), &pay(LSLP_TOKEN, 399_000), &pay(BASE_PAIR, 4_000_000))
        .unwrap();
    g
}

#[test]
fn mint_flow_with_ls_token() {
    let mut g = with_liquidity();
    let user = addr("address:user1");
    let (quote, call) = g.mint_begin(&user, pay(LS_TOKEN, 20_000), 1_50, None).unwrap();
    match &call {
        PairCall::GetAmountOutView { token_in, amount_in } => {
            assert_eq!(token_in.bytes, LS_TOKEN.to_vec());
            assert_eq!(val(amount_in), 10_000);
        },
        _ => panic!("unexpected call"),
    }
    // the pair answers 99,000 base tokens for 10,000 LST
    let (swap, call) = GToken::mint_swap(quote, &amt(99_000)).unwrap();
    match &call {
        PairCall::SwapTokensFixedOutput { token_out, amount_out, payment } => {
            assert_eq!(token_out.bytes, BASE_PAIR.to_vec());
            assert_eq!(val(amount_out), 97_515);
            assert_eq!(val(&payment.amount), 10_000);
        },
        _ => panic!("unexpected call"),
    }
    let (eq, call) = GToken::mint_after_swap(swap, SwapResult::FixedOutput(pay(BASE_PAIR, 97_515), pay(LS_TOKEN, 12)))
        .unwrap();
    match &call {
        PairCall::GetEquivalent { token_in, amount_in } => {
            assert_eq!(token_in.bytes, BASE_PAIR.to_vec());
            assert_eq!(val(amount_in), 96_052);
        },
        _ => panic!("unexpected call"),
    }
    let (add, call) = GToken::mint_after_equivalent(eq, amt(9_500)).unwrap();
    match &call {
        PairCall::AddLiquidity { first_token_amount_min, second_token_amount_min, first_payment, second_payment } => {
            assert_eq!(val(first_token_amount_min), 9_500);
            assert_eq!(val(second_token_amount_min), 96_052);
            assert_eq!(first_payment.token_identifier.bytes, LS_TOKEN.to_vec());
            assert_eq!(second_payment.token_identifier.bytes, BASE_PAIR.to_vec());
        },
        _ => panic!("unexpected call"),
    }
    let (pos, call) = GToken::mint_after_add_liquidity(add, pay(LSLP_TOKEN, 9_700), pay(LS_TOKEN, 9_800), pay(BASE_PAIR, 97_515));
    assert_eq!(call.endpoint_name(), "getTokensForGivenPosition");
    let out = g.mint_finish(pos, &pay(LS_TOKEN, 9_800), &pay(BASE_PAIR, 97_000)).unwrap();
    assert_eq!(out.caller.bytes, b"address:user1".to_vec());
    assert_eq!(val(&out.minted.amount), 97_000);
    // the fee of the balanced pair is 5%
    assert_eq!(val(&out.user_payment.amount), 92_150);
    assert_eq!(val(&g.config.g_token_supply), 4_097_000);
    let pair = g.config.get_pair_info(&id(LS_TOKEN)).unwrap();
    assert_eq!(val(&pair.g_token_supply), 4_097_000);
    assert_eq!(val(&pair.lp_token_supply), 408_700);
    // dust: swap leftover 12 + unused 200 LST, the fee in GToken
    let dust = |t: &[u8]| {
        g.config.token_dust.iter().find(|(k, _)| k.bytes == t.to_vec()).map(|(_, a)| val(a)).unwrap_or(0)
    };
    assert_eq!(dust(LS_TOKEN), 212);
    assert_eq!(dust(BASE_PAIR), 0);
    assert_eq!(dust(G_TOKEN), 4_000_000 + 4_850);
}

#[test]
fn mint_refusals() {
    let mut g = with_liquidity();
    let user = addr("address:user1");
    assert_eq!(
        g.mint_begin(&user, pay(LS_TOKEN, 3_999), 1_50, None).err(),
        Some(Error::InsufficientLiquidityDeposit)
    );
    assert_eq!(g.mint_begin(&user, pay(BASE_PAIR, 4_000), 1_50, None).err(), Some(Error::SpecifyGPairId));
    assert_eq!(g.mint_begin(&user, pay(b"NTV-123456", 4_000), 1_50, None).err(), Some(Error::UnrecognizedGPair));
    let (quote, _) = g.mint_begin(&user, pay(LS_TOKEN, 4_000), 0, None).unwrap();
    assert_eq!(GToken::mint_swap(quote, &amt(10)).err(), Some(Error::InvalidSlippage));
    // a deposit of the base token swaps into the GPair token with a fixed input
    let (quote, _) = g.mint_begin(&user, pay(BASE_PAIR, 40_000), 1_00, Some(id(LS_TOKEN))).unwrap();
    let (swap, call) = GToken::mint_swap(quote, &amt(1_000)).unwrap();
    assert_eq!(call.endpoint_name(), "swapTokensFixedInput");
    assert_eq!(
        GToken::mint_after_swap(swap, SwapResult::FixedOutput(pay(LS_TOKEN, 1), pay(BASE_PAIR, 1))).err(),
        Some(Error::UnexpectedCallResult)
    );
    let (quote, _) = g.mint_begin(&user, pay(BASE_PAIR, 40_000), 1_00, Some(id(LS_TOKEN))).unwrap();
    let (swap, _) = GToken::mint_swap(quote, &amt(1_000)).unwrap();
    let (eq, _) = GToken::mint_after_swap(swap, SwapResult::FixedInput(pay(LS_TOKEN, 1_000))).unwrap();
    assert_eq!(GToken::mint_after_equivalent(eq, amt(0)).err(), Some(Error::InvalidSlippageAmountCombination));
    let (quote, _) = g.mint_begin(&user, pay(BASE_PAIR, 40_000), 1_00, Some(id(LS_TOKEN))).unwrap();
    let (swap, _) = GToken::mint_swap(quote, &amt(1_000)).unwrap();
    let (eq, _) = GToken::mint_after_swap(swap, SwapResult::FixedInput(pay(LS_TOKEN, 1_000))).unwrap();
    let (add, _) = GToken::mint_after_equivalent(eq, amt(9_000)).unwrap();
    let (pos, _) = GToken::mint_after_add_liquidity(add, pay(LSLP_TOKEN, 100), pay(LS_TOKEN, 1_000), pay(BASE_PAIR, 20_000));
    assert_eq!(
        g.mint_finish(pos, &pay(LS_TOKEN, 1), &pay(b"NTV-123456", 1)).err(),
        Some(Error::InvalidPositionTokens)
    );
    let (quote, _) = g.mint_begin(&user, pay(BASE_PAIR, 40_000), 1_00, Some(id(LS_TOKEN))).unwrap();
    let (swap, _) = GToken::mint_swap(quote, &amt(1_000)).unwrap();
    let (eq, _) = GToken::mint_after_swap(swap, SwapResult::FixedInput(pay(LS_TOKEN, 1_000))).unwrap();
    let (add, _) = GToken::mint_after_equivalent(eq, amt(9_000)).unwrap();
    let (pos, _) = GToken::mint_after_add_liquidity(add, pay(LSLP_TOKEN, 100), pay(LS_TOKEN, 1_001), pay(BASE_PAIR, 20_000));
    assert_eq!(g.mint_finish(pos, &pay(LS_TOKEN, 1), &pay(BASE_PAIR, 1)).err(), Some(Error::SubNegative));
    assert_eq!(val(&g.config.g_token_supply), 4_000_000);
}

#[test]
fn burn_flow() {
    let mut g = with_liquidity();
    let user = addr("address:user1");
    let (pos, call) = g.burn_begin(&user, id(LS_TOKEN), 2_50, None, &pay(G_TOKEN, 400_000)).unwrap();
    match &call {
        PairCall::GetTokensForGivenPosition { liquidity } => assert_eq!(val(liquidity), 39_900),
        _ => panic!("unexpected call"),
    }
    assert_eq!(val(&g.config.g_token_supply), 3_600_000);
    let (rm, call) = GToken::burn_after_position(pos, &pay(LS_TOKEN, 40_000), &pay(BASE_PAIR, 400_000)).unwrap();
    match &call {
        PairCall::RemoveLiquidity { first_token_amount_min, second_token_amount_min, payment } => {
            assert_eq!(val(first_token_amount_min), 39_000);
            assert_eq!(val(second_token_amount_min), 390_000);
            assert_eq!(val(&payment.amount), 39_900);
        },
        _ => panic!("unexpected call"),
    }
    let (sw, call) = GToken::burn_after_remove(rm, pay(LS_TOKEN, 40_000), pay(BASE_PAIR, 400_000)).unwrap();
    match &call {
        PairCall::SwapTokensFixedInput { token_out, amount_out_min, payment } => {
            assert_eq!(token_out.bytes, LS_TOKEN.to_vec());
            assert_eq!(val(amount_out_min), 39_000);
            assert_eq!(payment.token_identifier.bytes, BASE_PAIR.to_vec());
        },
        _ => panic!("unexpected call"),
    }
    assert_eq!(GToken::burn_finish(sw, &pay(BASE_PAIR, 1)).err(), Some(Error::SwappedTokenMismatch));
    let (pos, _) = g.burn_begin(&user, id(LS_TOKEN), 2_50, None, &pay(G_TOKEN, 1)).unwrap();
    let (rm, _) = GToken::burn_after_position(pos, &pay(LS_TOKEN, 1), &pay(BASE_PAIR, 1)).unwrap();
    assert_eq!(
        GToken::burn_after_remove(rm, pay(b"NTV-123456", 1), pay(BASE_PAIR, 1)).err(),
        Some(Error::UnexpectedLiquidityTokens)
    );
    let (pos, _) = g.burn_begin(&user, id(LS_TOKEN), 2_50, None, &pay(G_TOKEN, 1)).unwrap();
    let (rm, _) = GToken::burn_after_position(pos, &pay(LS_TOKEN, 1), &pay(BASE_PAIR, 1)).unwrap();
    let (sw, _) = GToken::burn_after_remove(rm, pay(BASE_PAIR, 7), pay(LS_TOKEN, 3)).unwrap();
    let (to, receipt) = GToken::burn_finish(sw, &pay(LS_TOKEN, 2)).unwrap();
    assert_eq!(to.bytes, b"address:user1".to_vec());
    assert_eq!(val(&receipt.amount), 5);
}

#[test]
fn burn_refusals() {
    let mut g = with_liquidity();
    let user = addr("address:user1");
    assert_eq!(
        g.burn_begin(&user, id(LS_TOKEN), 2_50, None, &pay(BASE_PAIR, 1)).err(),
        Some(Error::InvalidPaymentToken)
    );
    assert_eq!(
        g.burn_begin(&user, id(LS_TOKEN), 2_50, None, &pay(G_TOKEN, 4_000_001)).err(),
        Some(Error::GTokenBurnAmountExceeded)
    );
    assert_eq!(
        g.burn_begin(&user, id(b"NTV-123456"), 2_50, None, &pay(G_TOKEN, 1)).err(),
        Some(Error::UnrecognizedGPair)
    );
    let (pos, _) = g.burn_begin(&user, id(LS_TOKEN), 10_000, None, &pay(G_TOKEN, 1)).unwrap();
    assert_eq!(
        GToken::burn_after_position(pos, &pay(LS_TOKEN, 1), &pay(BASE_PAIR, 1)).err(),
        Some(Error::InvalidSlippage)
    );
    // burning the whole supply of the only pair frees all its LP tokens
    let supply = val(&g.config.g_token_supply);
    let (pos, _) = g.burn_begin(&user, id(LS_TOKEN), 2_50, None, &pay(G_TOKEN, supply)).unwrap();
    assert_eq!(val(&pos.lp_payment.amount), 399_000);
    let pair = g.config.get_pair_info(&id(LS_TOKEN)).unwrap();
    assert_eq!(val(&pair.lp_token_supply), 0);
    assert_eq!(
        g.burn_begin(&user, id(LS_TOKEN), 2_50, None, &pay(G_TOKEN, 0)).err(),
        Some(Error::DivisionByZero)
    );
}

#[test]
fn router_calls() {
    let owner = addr("address:owner");
    let mut g = setup();
    let (router, call) = g
        .router_issue_lp(&owner, &owner, &id(LS_TOKEN), b"LSLP".to_vec(), LSLP_TOKEN.to_vec(), amt(5), true)
        .unwrap();
    assert_eq!(router.bytes, b"sc:router".to_vec());
    match &call {
        RouterCall::IssueLpToken { pair_address, .. } => assert_eq!(pair_address.bytes, b"sc:ls_base_pair".to_vec()),
        _ => panic!("unexpected call"),
    }
    let (_, call) = g.router_set_lp_local_roles(&owner, &owner, &id(LS_TOKEN), true).unwrap();
    assert_eq!(call.endpoint_name(), "setLocalRoles");
    assert_eq!(
        g.router_set_lp_local_roles(&owner, &owner, &id(b"NTV-123456"), true).err(),
        Some(Error::UnrecognizedGPair)
    );
    assert_eq!(
        g.router_issue_lp(&owner, &owner, &id(LS_TOKEN), vec![], vec![], amt(5), false).err(),
        Some(Error::InvalidRouterAddress)
    );
    let (req, _, _) = g.router_create_pair(&owner, &owner, id(LS_TOKEN), true).unwrap();
    assert_eq!(g.router_create_pair_complete(req, addr("sc:again")).err(), Some(Error::GPairAlreadyExists));
    assert_eq!(g.router_create_pair(&addr("x"), &owner, id(LS_TOKEN), true).err(), Some(Error::OnlyOwner));
    let empty = GToken::new();
    assert_eq!(empty.call_router(true).err(), Some(Error::StorageDecode));
    assert_eq!(empty.router_create_pair(&owner, &owner, id(LS_TOKEN), true).err(), Some(Error::InvalidTokenId));
}

#[test]
fn init_and_register() {
    let owner = addr("address:owner");
    let mut g = GToken::new();
    assert_eq!(g.init(&addr("sc:router"), false, &id(BASE_PAIR)).err(), Some(Error::InvalidRouterAddress));
    assert_eq!(g.init(&addr("sc:router"), true, &id(b"basetk")).err(), Some(Error::InvalidTokenId));
    assert!(g.config.router_addr.is_none());
    g.init(&addr("sc:router"), true, &id(BASE_PAIR)).unwrap();
    g.register_g_token(&owner, &owner, amt(5), vec![], vec![], 18).unwrap();
    assert_eq!(g.register_g_token(&owner, &owner, amt(5), vec![], vec![], 18).err(), Some(Error::IssueAlreadyCalled));
    assert_eq!(
        g.mint_begin(&owner, pay(LS_TOKEN, 5_000), 1_50, None).err(),
        Some(Error::InvalidTokenId)
    );
    let extreme = GRatioExtreme(id(LS_TOKEN), 1_000);
    assert_eq!(extreme.1, 1_000);
}

#[test]
fn pair_info_lp_accounting() {
    let tokens = PairTokens { first_token_id: id(LS_TOKEN), second_token_id: id(BASE_PAIR) };
    let mut p = PairInfo::new(tokens, addr("sc:pair"));
    assert!(p.check_lp_id(&PairInfo::placeholder_lp_id()));
    assert_eq!(p.take_tokens_from_supply(&amt(0)).err(), Some(Error::DivisionByZero));
    assert!(p.set_or_check_lp_id(&id(LSLP_TOKEN)));
    assert!(!p.set_or_check_lp_id(&id(b"OTHER-123456")));
    p.g_token_supply = amt(1_000);
    p.lp_token_supply = amt(300);
    assert_eq!(p.take_tokens_from_supply(&amt(1_001)).err(), Some(Error::GTokenAmountTooLarge));
    let lp = p.take_tokens_from_supply(&amt(500)).unwrap();
    assert_eq!(val(&lp.amount), 150);
    assert_eq!(val(&p.g_token_supply), 500);
    assert_eq!(val(&p.lp_token_supply), 150);
}

/// What a pair answers during one mint, in the order it is asked: the
/// amount out for half the deposit, the swap (bought amount and, for a
/// fixed-output swap, the unspent input), the equivalent of the least
/// bought amount, the added liquidity (LP tokens and the two amounts used)
/// and the position of those LP tokens.
struct MintAnswers {
    amount_out: u64,
    bought: u64,
    unspent: Option<u64>,
    equivalent: u64,
    lp: u64,
    first_optimal: u64,
    second_optimal: u64,
    position: (u64, u64),
}

fn dust(g: &GToken, t: &[u8]) -> u64 {
    g.config.token_dust.iter().find(|(k, _)| k.bytes == t.to_vec()).map(|(_, a)| val(a)).unwrap_or(0)
}

/// Runs a mint of `deposit` against the LST pair with the pair's answers
/// `a`, checking the amounts the contract asks the pair for; returns the
/// GToken the user receives.
fn mint_with_answers(g: &mut GToken, deposit: EsdtTokenPayment, opt_g_pair: Option<TokenId>, a: &MintAnswers) -> u64 {
    let user = addr("address:user1");
    let slippage = 1_50;
    let sent_is_base = deposit.token_identifier.bytes == BASE_PAIR.to_vec();
    let half = val(&deposit.amount) / 2;
    let (quote, call) = g.mint_begin(&user, deposit, slippage, opt_g_pair).unwrap();
    match &call {
        PairCall::GetAmountOutView { amount_in, .. } => assert_eq!(val(amount_in), half),
        _ => panic!("unexpected call"),
    }
    let (swap, call) = GToken::mint_swap(quote, &amt(a.amount_out)).unwrap();
    let min_out = a.amount_out * (10_000 - slippage) / 10_000;
    let (bought_token, other_token) = if sent_is_base { (LS_TOKEN, BASE_PAIR) } else { (BASE_PAIR, LS_TOKEN) };
    let result = match &call {
        PairCall::SwapTokensFixedInput { amount_out_min, .. } => {
            assert_eq!(val(amount_out_min), min_out);
            SwapResult::FixedInput(pay(bought_token, a.bought))
        },
        PairCall::SwapTokensFixedOutput { amount_out, .. } => {
            assert_eq!(val(amount_out), min_out);
            SwapResult::FixedOutput(pay(bought_token, a.bought), pay(other_token, a.unspent.unwrap()))
        },
        _ => panic!("unexpected call"),
    };
    let (eq, call) = GToken::mint_after_swap(swap, result).unwrap();
    let bought_min = a.bought * (10_000 - slippage) / 10_000;
    match &call {
        PairCall::GetEquivalent { amount_in, .. } => assert_eq!(val(amount_in), bought_min),
        _ => panic!("unexpected call"),
    }
    let (add, call) = GToken::mint_after_equivalent(eq, amt(a.equivalent)).unwrap();
    match &call {
        PairCall::AddLiquidity { first_payment, second_payment, .. } => {
            assert_eq!(first_payment.token_identifier.bytes, LS_TOKEN.to_vec());
            assert_eq!(second_payment.token_identifier.bytes, BASE_PAIR.to_vec());
        },
        _ => panic!("unexpected call"),
    }
    let (pos, call) = GToken::mint_after_add_liquidity(
        add,
        pay(LSLP_TOKEN, a.lp),
        pay(LS_TOKEN, a.first_optimal),
        pay(BASE_PAIR, a.second_optimal),
    );
    match &call {
        PairCall::GetTokensForGivenPosition { liquidity } => assert_eq!(val(liquidity), a.lp),
        _ => panic!("unexpected call"),
    }
    let out = g.mint_finish(pos, &pay(LS_TOKEN, a.position.0), &pay(BASE_PAIR, a.position.1)).unwrap();
    assert_eq!(out.caller.bytes, b"address:user1".to_vec());
    assert_eq!(out.user_payment.token_identifier.bytes, G_TOKEN.to_vec());
    val(&out.user_payment.amount)
}

/// The two mints of 20,000 LST of the mint scenario: the pair (0.3% fee,
/// 400,000 LST against 4,000,000 BASETK) answers as below.
fn two_ls_mints(g: &mut GToken) -> u64 {
    let first = MintAnswers {
        amount_out: 97_275,
        bought: 95_815,
        unspent: Some(153),
        equivalent: 9_907,
        lp: 9_759,
        first_optimal: 10_000,
        second_optimal: 95_259,
        position: (9_999, 95_252),
    };
    let user_g = mint_with_answers(g, pay(LS_TOKEN, 20_000), None, &first);
    assert_eq!(user_g, 90_489);
    assert_eq!(dust(g, G_TOKEN), 4_004_763);
    assert_eq!(dust(g, LS_TOKEN), 153);
    assert_eq!(dust(g, BASE_PAIR), 556);
    assert_eq!(val(&g.config.get_pair_info(&id(LS_TOKEN)).unwrap().lp_token_supply), 408_759);

    let second = MintAnswers {
        amount_out: 92_770,
        bought: 91_378,
        unspent: Some(153),
        equivalent: 9_896,
        lp: 9_535,
        first_optimal: 10_000,
        second_optimal: 90_949,
        position: (9_998, 90_940),
    };
    let user_g = user_g + mint_with_answers(g, pay(LS_TOKEN, 20_000), None, &second);
    assert_eq!(user_g, 176_882);
    assert_eq!(dust(g, G_TOKEN), 4_009_310);
    assert_eq!(dust(g, LS_TOKEN), 306);
    assert_eq!(dust(g, BASE_PAIR), 985);
    assert_eq!(val(&g.config.get_pair_info(&id(LS_TOKEN)).unwrap().lp_token_supply), 418_294);
    user_g
}

#[test]
fn mint_mint() {
    let mut g = with_liquidity();
    two_ls_mints(&mut g);
}

#[test]
fn mint_with_base_pair() {
    let mut g = with_liquidity();
    let first = MintAnswers {
        amount_out: 994,
        bought: 994,
        unspent: None,
        equivalent: 9_838,
        lp: 996,
        first_optimal: 994,
        second_optimal: 9_989,
        position: (993, 9_984),
    };
    let user_g = mint_with_answers(&mut g, pay(BASE_PAIR, 20_000), Some(id(LS_TOKEN)), &first);
    assert_eq!(user_g, 9_484);
    assert_eq!(dust(&g, G_TOKEN), 4_000_500);
    assert_eq!(dust(&g, LS_TOKEN), 0);
    assert_eq!(dust(&g, BASE_PAIR), 11);
    assert_eq!(val(&g.config.get_pair_info(&id(LS_TOKEN)).unwrap().lp_token_supply), 399_996);

    let second = MintAnswers {
        amount_out: 989,
        bought: 989,
        unspent: None,
        equivalent: 9_837,
        lp: 993,
        first_optimal: 989,
        second_optimal: 9_988,
        position: (988, 9_979),
    };
    let user_g = user_g + mint_with_answers(&mut g, pay(BASE_PAIR, 20_000), Some(id(LS_TOKEN)), &second);
    assert_eq!(user_g, 18_964);
    assert_eq!(dust(&g, G_TOKEN), 4_000_999);
    assert_eq!(dust(&g, BASE_PAIR), 23);
    assert_eq!(val(&g.config.get_pair_info(&id(LS_TOKEN)).unwrap().lp_token_supply), 400_989);
}

/// Burns `g_amount` GToken for LST with `slippage`, the pair answering the
/// position `pos`, giving back `removed` and swapping the BASETK for
/// `swapped` LST; checks the amounts asked for and returns the LST received.
fn burn_with_answers(g: &mut GToken, g_amount: u64, slippage: u64, lp: u64, pos: (u64, u64), swapped: u64) -> u64 {
    let user = addr("address:user1");
    let (position, call) = g.burn_begin(&user, id(LS_TOKEN), slippage, None, &pay(G_TOKEN, g_amount)).unwrap();
    match &call {
        PairCall::GetTokensForGivenPosition { liquidity } => assert_eq!(val(liquidity), lp),
        _ => panic!("unexpected call"),
    }
    let (remove, call) = GToken::burn_after_position(position, &pay(LS_TOKEN, pos.0), &pay(BASE_PAIR, pos.1)).unwrap();
    match &call {
        PairCall::RemoveLiquidity { first_token_amount_min, second_token_amount_min, payment } => {
            assert_eq!(val(first_token_amount_min), pos.0 * (10_000 - slippage) / 10_000);
            assert_eq!(val(second_token_amount_min), pos.1 * (10_000 - slippage) / 10_000);
            assert_eq!(val(&payment.amount), lp);
        },
        _ => panic!("unexpected call"),
    }
    let (swap, call) = GToken::burn_after_remove(remove, pay(LS_TOKEN, pos.0), pay(BASE_PAIR, pos.1)).unwrap();
    match &call {
        PairCall::SwapTokensFixedInput { token_out, amount_out_min, payment } => {
            assert_eq!(token_out.bytes, LS_TOKEN.to_vec());
            assert_eq!(val(amount_out_min), pos.0 * (10_000 - slippage) / 10_000);
            assert_eq!(val(&payment.amount), pos.1);
        },
        _ => panic!("unexpected call"),
    }
    let (to, receipt) = GToken::burn_finish(swap, &pay(LS_TOKEN, swapped)).unwrap();
    assert_eq!(to.bytes, b"address:user1".to_vec());
    assert_eq!(receipt.token_identifier.bytes, LS_TOKEN.to_vec());
    val(&receipt.amount)
}

#[test]
fn burn() {
    let mut g = with_liquidity();
    let user_g = two_ls_mints(&mut g);
    let mut user_ls: u64 = 200_000 - 40_000;

    user_ls += burn_with_answers(&mut g, 6_000, 1_50, 599, (628, 5_712), 625);
    assert_eq!(user_ls, 161_253);
    let user_g = user_g - 6_000;
    assert_eq!(user_g, 170_882);
    assert_eq!(val(&g.config.get_pair_info(&id(LS_TOKEN)).unwrap().lp_token_supply), 417_695);
    // the contract's own GToken, its dust, is untouched
    assert_eq!(dust(&g, G_TOKEN), 4_009_310);

    user_ls += burn_with_answers(&mut g, user_g, 4_50, 17_074, (17_879, 163_076), 17_100);
    assert_eq!(user_ls, 196_232);
    assert_eq!(val(&g.config.get_pair_info(&id(LS_TOKEN)).unwrap().lp_token_supply), 400_621);
    assert_eq!(dust(&g, G_TOKEN), 4_009_310);
    assert_eq!(dust(&g, LS_TOKEN), 306);
    assert_eq!(dust(&g, BASE_PAIR), 985);
}

#[test]
fn pair_g_ratio_saturates() {
    let mut g = with_liquidity();
    // the pair holds 70 GToken of a recorded supply of 1: its share is
    // 70,000 thousandths, which saturates at u16::MAX
    let i = g.config.pair_map.iter().position(|(k, _)| k.bytes == LS_TOKEN.to_vec()).unwrap();
    g.config.pair_map[i].1.g_token_supply = amt(70);
    g.config.g_token_supply = amt(1);
    assert_eq!(g.config.pair_g_ratio(&id(LS_TOKEN)), Ok(0xffff));
    assert_eq!(g.config.pair_fee_ratio(&id(LS_TOKEN)), Ok(6_553));
    // a share just at the top of the range is kept as it is
    g.config.pair_map[i].1.g_token_supply = amt(65_535);
    g.config.g_token_supply = amt(1_000);
    assert_eq!(g.config.pair_g_ratio(&id(LS_TOKEN)), Ok(65_535));
    g.config.pair_map[i].1.g_token_supply = amt(65_536);
    assert_eq!(g.config.pair_g_ratio(&id(LS_TOKEN)), Ok(0xffff));
}
