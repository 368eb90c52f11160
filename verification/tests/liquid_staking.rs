use cryptgain::amount::Amount;
use cryptgain::error::Error;
use cryptgain::funds::FundsModule;
use cryptgain::liquid_staking::{is_enough_to_delegate, LiquidStaking, RewardTransfer};
use cryptgain::test_utils::BlockState;
use cryptgain::token::{Address, EsdtTokenPayment, TokenId, TokenMapperState};

const LS_TOKEN: &[u8] = b"LST-123456";

fn addr(name: &str) -> Address {
    Address::new(name.as_bytes().to_vec())
}

fn amt(x: u64) -> Amount {
    Amount::from_u64(x)
}

fn val(a: &Amount) -> u64 {
    a.to_u64().unwrap()
}

const GAS: u64 = 50_000_000;

fn egld(n: u64) -> u64 {
    n * 1_000_000_000_000_000_000
}

fn deployed() -> LiquidStaking {
    let mut ls = LiquidStaking::new();
    ls.init(&addr("sc:dsc"), true, &addr("sc:akf"), true, &addr("sc:delegation_proxy"), true)
        .unwrap();
    ls.pool.ls_token = TokenMapperState::Token(TokenId::new(LS_TOKEN.to_vec()));
    ls
}

#[test]
fn add_liquidity() {
    let owner = addr("address:owner");
    let mut ls = deployed();

    let liq_amount = egld(1) / 10;
    let (rps, ls_token, call) = ls.add_liquidity(&owner, &owner, amt(liq_amount), &amt(liq_amount), GAS, true).unwrap();
    assert_eq!(val(&rps), 0);
    assert_eq!(val(&ls_token.amount), liq_amount);
    assert!(call.is_none());
    assert_eq!(val(&ls.funds.ls_token_supply), liq_amount);
    assert_eq!(val(&ls.pool.delegated_egld), liq_amount);
    assert_eq!(val(&ls.funds.pending_delegation), liq_amount);

    let liq_amount_2 = egld(1);
    let (rps, ls_token, call) =
        ls.add_liquidity(&owner, &owner, amt(liq_amount_2), &amt(liq_amount_2), 45_000_000, true).unwrap();
    assert_eq!(val(&rps), 0);
    assert_eq!(ls_token.token_identifier.bytes, LS_TOKEN.to_vec());
    assert_eq!(ls_token.token_nonce, 0);
    assert_eq!(val(&ls_token.amount), liq_amount_2);

    let final_liq_amount = liq_amount + liq_amount_2;
    assert_eq!(final_liq_amount, 1_100_000_000_000_000_000);
    assert_eq!(val(&ls.funds.ls_token_supply), final_liq_amount);
    assert_eq!(val(&ls.pool.delegated_egld), final_liq_amount);
    // the pending 1.1 eGLD is delegated at once
    let call = call.unwrap();
    assert_eq!(call.to.bytes, b"sc:dsc".to_vec());
    assert_eq!(call.call.endpoint_name(), "delegate");
    assert_eq!(val(&call.amount), final_liq_amount);
    assert_eq!(val(&ls.funds.pending_delegation), 0);
    // the delegation contract refuses it: it is pending again
    ls.delegate_callback(&call.amount, false);
    assert_eq!(val(&ls.funds.pending_delegation), 0x0f43fc2c04ee0000);
}

fn transfer_amount(t: &RewardTransfer) -> (Vec<u8>, u64) {
    match t {
        RewardTransfer::AkfCall { to, egld, .. } => (to.bytes.clone(), val(egld)),
        RewardTransfer::SendEgld { to, amount } => (to.bytes.clone(), val(amount)),
    }
}

#[test]
fn claim_rewards() {
    let owner = addr("address:owner");
    let user = addr("address:user");
    let referrer = addr("address:ref");
    let mut ls = deployed();
    let mut block = BlockState::new(456_484, 14_400);
    block.move_block_epoch(2);

    let liq_amount = egld(1);
    let reward_top_up = egld(1) / 1_000_000;

    // the added eGLD goes on to the delegation contract at once
    let (_, _, call) = ls.add_liquidity(&owner, &owner, amt(liq_amount), &amt(liq_amount), GAS, true).unwrap();
    let call = call.unwrap();
    assert_eq!(val(&call.amount), liq_amount);
    ls.delegate_callback(&call.amount, true);
    ls.top_up_rewards(&amt(reward_top_up));
    assert_eq!(val(&ls.funds.pending_delegation), 0);
    assert_eq!(val(&ls.funds.rewards_reserve), reward_top_up);
    assert_eq!(ls.last_claim_epoch, 0);

    // claim without referrer
    let out = ls
        .claim_reward(&owner, &owner, &user, 1, &amt(0), &amt(liq_amount), None, true, block.info.block_epoch)
        .unwrap();
    assert_eq!(val(&out.reward_per_share), 1_000);
    let transfers: Vec<(Vec<u8>, u64)> = out.transfers.iter().map(transfer_amount).collect();
    assert_eq!(
        transfers,
        vec![(b"sc:akf".to_vec(), 46_200_000_000), (b"address:user".to_vec(), 923_000_000_000)]
    );
    assert_eq!(val(&ls.funds.pending_delegation), 30_800_000_000);
    assert_eq!(val(&ls.funds.rewards_reserve), 0);
    assert_eq!(ls.last_claim_epoch, 33);
    let rps = val(&ls.funds.reward_per_share);

    // claim with referrer, twenty epochs later
    block.move_block_epoch(20);
    ls.top_up_rewards(&amt(reward_top_up));
    let out = ls
        .claim_reward(&owner, &owner, &user, 1, &amt(rps), &amt(liq_amount), Some(referrer), true, block.info.block_epoch)
        .unwrap();
    assert_eq!(val(&out.reward_per_share), 2_000);
    let transfers: Vec<(Vec<u8>, u64)> = out.transfers.iter().map(transfer_amount).collect();
    assert_eq!(
        transfers,
        vec![
            (b"sc:akf".to_vec(), 46_200_000_000),
            (b"address:ref".to_vec(), 30_800_000_000),
            (b"address:user".to_vec(), 923_000_000_000)
        ]
    );
    assert_eq!(val(&ls.funds.pending_delegation), 30_800_000_000);
    assert_eq!(val(&ls.funds.rewards_reserve), 0);
    assert_eq!(ls.last_claim_epoch, 53);
}

#[test]
fn claim_reward_unpaid_when_reserve_short() {
    let owner = addr("address:owner");
    let user = addr("address:user");
    let mut ls = deployed();
    ls.add_liquidity(&owner, &owner, amt(egld(1)), &amt(egld(1)), GAS, true).unwrap();
    ls.top_up_rewards(&amt(1_000_000_000_000));
    // a position twice the supply is owed more than the reserve holds
    let out = ls.claim_reward(&owner, &owner, &user, 7, &amt(0), &amt(egld(2)), None, true, 7).unwrap();
    assert_eq!(val(&out.reward_per_share), 0);
    assert!(out.transfers.is_empty());
    assert_eq!(val(&ls.funds.rewards_reserve), 1_000_000_000_000);
    // nothing owed: the current reward per share comes back
    let out = ls.claim_reward(&owner, &owner, &user, 7, &amt(1_000), &amt(egld(1)), None, true, 9).unwrap();
    assert_eq!(val(&out.reward_per_share), 1_000);
    assert!(out.transfers.is_empty());
    // an unpaid claim still records its epoch
    assert_eq!(ls.last_claim_epoch, 9);
}

#[test]
fn claim_reward_errors() {
    let owner = addr("address:owner");
    let user = addr("address:user");
    let mut ls = deployed();
    ls.add_liquidity(&owner, &owner, amt(egld(1)), &amt(egld(1)), GAS, true).unwrap();
    ls.top_up_rewards(&amt(1_000_000_000_000));
    assert!(matches!(
        ls.claim_reward(&user, &owner, &user, 1, &amt(0), &amt(egld(1)), None, true, 7),
        Err(Error::OnlyOwner)
    ));
    assert!(matches!(
        ls.claim_reward(&owner, &owner, &user, 1, &amt(0), &amt(egld(1)), None, false, 7),
        Err(Error::AkfAddressNotSc)
    ));
    ls.akf.akf_address = None;
    assert!(matches!(
        ls.claim_reward(&owner, &owner, &user, 1, &amt(0), &amt(egld(1)), None, true, 7),
        Err(Error::AkfAddressNotSet)
    ));
    assert_eq!(val(&ls.funds.rewards_reserve), 1_000_000_000_000);
    // a refused claim records nothing
    assert_eq!(ls.last_claim_epoch, 0);
}

#[test]
fn add_liquidity_errors() {
    let owner = addr("address:owner");
    let other = addr("address:other");
    let mut ls = deployed();
    assert_eq!(ls.add_liquidity(&other, &owner, amt(egld(1)), &amt(egld(1)), GAS, true).err(), Some(Error::OnlyOwner));
    assert_eq!(
        ls.add_liquidity(&owner, &owner, amt(egld(1) / 10 - 1), &amt(egld(1)), GAS, true).err(),
        Some(Error::InsufficientStakedEgld)
    );
    assert_eq!(
        ls.add_liquidity(&owner, &owner, amt(egld(1)), &amt(egld(1) - 1), GAS, true).err(),
        Some(Error::InvalidEgldAmountSent)
    );
    // the payment brings the pending delegation to one eGLD: it is delegated
    assert_eq!(
        ls.add_liquidity(&owner, &owner, amt(egld(1)), &amt(egld(1)), 13_999_999, true).err(),
        Some(Error::NotEnoughGasForDelegate)
    );
    assert_eq!(
        ls.add_liquidity(&owner, &owner, amt(egld(1)), &amt(egld(1)), 14_000_000, false).err(),
        Some(Error::DscAddressNotSc)
    );
    // below one eGLD neither gas nor the delegation contract is needed
    assert!(ls.add_liquidity(&owner, &owner, amt(egld(1) / 10), &amt(egld(1) / 10), 0, false).unwrap().2.is_none());
    ls.dsc.dsc_address = None;
    assert_eq!(
        ls.add_liquidity(&owner, &owner, amt(egld(1)), &amt(egld(1)), GAS, true).err(),
        Some(Error::DscAddressNotSet)
    );
    assert_eq!(val(&ls.funds.ls_token_supply), egld(1) / 10);
    assert_eq!(val(&ls.funds.pending_delegation), egld(1) / 10);
    ls.pool.ls_token = TokenMapperState::Token(TokenId::new(b"lst-123456".to_vec()));
    assert_eq!(ls.add_liquidity(&owner, &owner, amt(egld(1)), &amt(egld(1)), GAS, true).err(), Some(Error::LsTokenInvalid));
    ls.pool.ls_token = TokenMapperState::Pending;
    assert_eq!(ls.add_liquidity(&owner, &owner, amt(egld(1)), &amt(egld(1)), GAS, true).err(), Some(Error::InvalidTokenId));
    assert_eq!(val(&ls.funds.ls_token_supply), egld(1) / 10);
}

#[test]
fn remove_liquidity_checks() {
    let owner = addr("address:owner");
    let mut ls = deployed();
    let pay = |id: &[u8], x: u64| EsdtTokenPayment::new(TokenId::new(id.to_vec()), 0, amt(x));
    assert_eq!(ls.remove_liquidity(&owner, &owner, &amt(5), &pay(LS_TOKEN, 10)), Ok(()));
    assert_eq!(ls.remove_liquidity(&owner, &owner, &amt(11), &pay(LS_TOKEN, 10)), Err(Error::PlvAmountTooLarge));
    assert_eq!(ls.remove_liquidity(&owner, &owner, &amt(0), &pay(LS_TOKEN, 0)), Err(Error::BadPaymentAmount));
    assert_eq!(ls.remove_liquidity(&owner, &owner, &amt(0), &pay(b"OTHER-123456", 5)), Err(Error::BadPaymentToken));
    assert_eq!(ls.remove_liquidity(&addr("x"), &owner, &amt(0), &pay(LS_TOKEN, 5)), Err(Error::OnlyOwner));
    ls.pool.ls_token = TokenMapperState::Token(TokenId::new(b"LST".to_vec()));
    assert_eq!(ls.remove_liquidity(&owner, &owner, &amt(0), &pay(b"LST", 5)), Err(Error::LsTokenNotIssued));
    ls.pool.ls_token = TokenMapperState::NotSet;
    assert_eq!(ls.remove_liquidity(&owner, &owner, &amt(0), &pay(LS_TOKEN, 5)), Err(Error::InvalidTokenId));
}

#[test]
fn delegate_needs_one_egld_and_gas() {
    let owner = addr("address:owner");
    let mut ls = deployed();
    ls.add_liquidity(&owner, &owner, amt(egld(1) - 1), &amt(egld(1) - 1), GAS, true).unwrap();
    assert!(!ls.is_enough_to_delegate());
    assert!(ls.delegate(50_000_000, true).unwrap().is_none());
    // adding liquidity delegates what reaches one eGLD; a refusal puts it back
    let (_, _, call) = ls.add_liquidity(&owner, &owner, amt(egld(1) / 10), &amt(egld(1) / 10), GAS, true).unwrap();
    ls.delegate_callback(&call.unwrap().amount, false);
    assert!(ls.is_enough_to_delegate());
    assert_eq!(ls.delegate(13_999_999, true).err(), Some(Error::NotEnoughGasForDelegate));
    assert_eq!(ls.delegate(14_000_000, false).err(), Some(Error::DscAddressNotSc));
    let pending = val(&ls.funds.pending_delegation);
    let call = ls.delegate(14_000_000, true).unwrap().unwrap();
    assert_eq!(call.to.bytes, b"sc:dsc".to_vec());
    assert_eq!(call.call.endpoint_name(), "delegate");
    assert_eq!(call.gas_limit, 12_000_000);
    assert_eq!(val(&call.amount), pending);
    assert_eq!(val(&ls.funds.pending_delegation), 0);
    // a failed delegation puts the amount back
    ls.delegate_callback(&call.amount, false);
    assert_eq!(val(&ls.funds.pending_delegation), pending);
    ls.dsc.dsc_address = None;
    assert_eq!(ls.delegate(14_000_000, true).err(), Some(Error::DscAddressNotSet));
}

#[test]
fn is_enough_to_delegate_threshold() {
    assert!(!is_enough_to_delegate(&amt(egld(1) - 1)));
    assert!(is_enough_to_delegate(&amt(egld(1))));
}

#[test]
fn try_claim_twice_per_epoch() {
    let owner = addr("address:owner");
    let mut ls = deployed();
    assert_eq!(ls.last_claim, Some((0, 0, 0)));
    let c = ls.try_claim_from_delegation_proxy(&owner, &owner, 5, 100, 20_000_000, true).unwrap().unwrap();
    assert_eq!(c.to.bytes, b"sc:delegation_proxy".to_vec());
    assert_eq!(c.gas_limit, 15_000_000);
    assert_eq!(ls.last_claim, Some((5, 1, 100)));
    assert!(ls.try_claim_from_delegation_proxy(&owner, &owner, 5, 101, 20_000_000, true).unwrap().is_some());
    assert_eq!(ls.last_claim, Some((5, 2, 101)));
    assert!(ls.try_claim_from_delegation_proxy(&owner, &owner, 5, 102, 20_000_000, true).unwrap().is_none());
    assert_eq!(ls.last_claim, Some((5, 3, 101)));
    // a new epoch starts the count again
    assert_eq!(
        ls.try_claim_from_delegation_proxy(&owner, &owner, 6, 200, 15_000_000, true).err(),
        Some(Error::NotEnoughGasForClaim)
    );
    assert_eq!(ls.last_claim, Some((5, 3, 101)));
    assert_eq!(
        ls.try_claim_from_delegation_proxy(&owner, &owner, 6, 200, 20_000_000, false).err(),
        Some(Error::DelegationAddressNotSc)
    );
    assert!(ls.try_claim_from_delegation_proxy(&owner, &owner, 6, 200, 20_000_000, true).unwrap().is_some());
    assert_eq!(ls.last_claim, Some((6, 1, 200)));
    assert_eq!(
        ls.try_claim_from_delegation_proxy(&addr("x"), &owner, 6, 200, 20_000_000, true).err(),
        Some(Error::OnlyOwner)
    );
    ls.delegation.delegation_address = None;
    assert_eq!(
        ls.try_claim_from_delegation_proxy(&owner, &owner, 7, 300, 20_000_000, true).err(),
        Some(Error::DelegationAddressNotSet)
    );
    let mut fresh = LiquidStaking::new();
    assert_eq!(
        fresh.try_claim_from_delegation_proxy(&owner, &owner, 7, 300, 20_000_000, true).err(),
        Some(Error::StorageDecode)
    );
}

#[test]
fn init_checks_addresses() {
    let mut ls = LiquidStaking::new();
    assert_eq!(ls.init(&addr("a"), false, &addr("b"), true, &addr("c"), true), Err(Error::DscAddressNotSc));
    assert_eq!(ls.init(&addr("a"), true, &addr("b"), false, &addr("c"), true), Err(Error::AkfAddressNotSc));
    assert_eq!(ls.init(&addr("a"), true, &addr("b"), true, &addr("c"), false), Err(Error::DelegationAddressNotSc));
    assert!(ls.dsc.dsc_address.is_none());
    assert_eq!(ls.init(&addr("a"), true, &addr("b"), true, &addr("c"), true), Ok(()));
    // a second init keeps what is stored
    assert_eq!(ls.init(&addr("x"), true, &addr("y"), true, &addr("z"), true), Ok(()));
    assert_eq!(ls.dsc.dsc_address.as_ref().unwrap().bytes, b"a".to_vec());
    assert_eq!(ls.akf.get_akf_address(true).unwrap().bytes, b"b".to_vec());
    assert_eq!(ls.delegation.get_delegation_address(false).err(), Some(Error::DelegationAddressNotSc));
}

#[test]
fn total_claimable_sums_positions() {
    let owner = addr("address:owner");
    let sc = addr("sc:ls");
    let mut ls = deployed();
    ls.add_liquidity(&owner, &owner, amt(egld(1)), &amt(egld(1)), GAS, true).unwrap();
    ls.top_up_rewards(&amt(1_000_000_000_000));
    let props = vec![(amt(0), amt(egld(1))), (amt(500), amt(egld(2))), (amt(2_000), amt(egld(1)))];
    let total = ls.total_claimable(&sc, &sc, &props).unwrap();
    assert_eq!(val(&total), 1_000_000_000_000 + 1_000_000_000_000);
    assert_eq!(ls.total_claimable(&owner, &sc, &props).err(), Some(Error::OnlyViaQuery));
}

#[test]
fn register_ls_token_once() {
    let owner = addr("address:owner");
    let mut ls = LiquidStaking::new();
    let req = ls
        .pool
        .register_ls_token(&owner, &owner, amt(5), b"LiquidStaking".to_vec(), b"LST".to_vec())
        .unwrap();
    assert_eq!(req.num_decimals, 18);
    assert_eq!(val(&req.issue_cost), 5);
    assert!(matches!(ls.pool.ls_token, TokenMapperState::Pending));
    assert_eq!(
        ls.pool.register_ls_token(&owner, &owner, amt(5), vec![], vec![]).err(),
        Some(Error::IssueAlreadyCalled)
    );
    ls.pool.ls_token = TokenMapperState::Token(TokenId::new(LS_TOKEN.to_vec()));
    assert_eq!(
        ls.pool.register_ls_token(&owner, &owner, amt(5), vec![], vec![]).err(),
        Some(Error::TokenIdAlreadySet)
    );
    assert_eq!(
        ls.pool.register_ls_token(&addr("x"), &owner, amt(5), vec![], vec![]).err(),
        Some(Error::OnlyOwner)
    );
}
