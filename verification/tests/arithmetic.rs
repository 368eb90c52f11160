use cryptgain::amount::Amount;
use cryptgain::config::Config;
use cryptgain::error::Error;
use cryptgain::fuzz_data::{get_ticker, pair_addr_from_token_id};
use cryptgain::funds::Funds;
use cryptgain::math::linear_interpolation;
use cryptgain::mocks::{AkfMock, DelegationProxyMock, MockContract};
use cryptgain::reward_sharing::{compute_reward, split_reward};
use cryptgain::slippage::{apply, check_slippage, from_ref};
use cryptgain::test_utils::{big_num_pow_18, BlockState};
use cryptgain::token::{is_valid_esdt_identifier, TokenId};

fn amt(x: u64) -> Amount {
    Amount::from_u64(x)
}

fn val(a: &Amount) -> u64 {
    a.to_u64().unwrap()
}

#[test]
fn amount_arithmetic_beyond_u64() {
    let big = amt(u64::MAX).mul(&amt(u64::MAX));
    assert_eq!(big.to_u64(), None);
    let back = big.div(&amt(u64::MAX));
    assert_eq!(back.to_u64(), None); // u64::MAX is above what the framework converts
    assert!(back.eq(&amt(u64::MAX)));
    assert_eq!(amt(0x7fff_ffff_ffff_ffff).to_u64(), Some(0x7fff_ffff_ffff_ffff));
    assert_eq!(amt(0x8000_0000_0000_0000).to_u64(), None);
    assert_eq!(val(&amt(10).pow(3)), 1_000);
    assert!(amt(3).checked_sub(&amt(4)).is_none());
    assert_eq!(val(&amt(4).checked_sub(&amt(3)).unwrap()), 1);
    assert!(Amount::zero().is_zero());
    assert_eq!(val(&Amount::from_bytes_be(vec![0, 1, 0])), 256);
    assert_eq!(val(&Amount::from_bytes_be(amt(123_456).to_bytes_be())), 123_456);
}

#[test]
fn split_reward_shares_add_up() {
    let shares = split_reward(&amt(1_000_000_000_000));
    assert_eq!(val(&shares.user_value), 923_000_000_000);
    assert_eq!(val(&shares.referrer_value), 30_800_000_000);
    assert_eq!(val(&shares.uru_value), 46_200_000_000);
    let shares = split_reward(&amt(999));
    assert_eq!(val(&shares.user_value) + val(&shares.referrer_value) + val(&shares.uru_value), 999);
    assert_eq!(val(&shares.user_value), 923);
    assert_eq!(val(&shares.referrer_value), 30);
    assert_eq!(val(&shares.uru_value), 46);
}

#[test]
fn compute_reward_needs_rps_increase() {
    assert_eq!(val(&compute_reward(&amt(5), &amt(5), &amt(1_000_000_000))), 0);
    assert_eq!(val(&compute_reward(&amt(6), &amt(5), &amt(1_000_000_000))), 0);
    assert_eq!(val(&compute_reward(&amt(5), &amt(8), &amt(1_000_000_000))), 3);
    assert_eq!(val(&compute_reward(&amt(0), &amt(1), &amt(999_999_999))), 0);
}

#[test]
fn top_up_is_pro_rata() {
    let mut funds = Funds {
        pending_delegation: amt(0),
        rewards_reserve: amt(0),
        ls_token_supply: amt(3),
        reward_per_share: amt(0),
    };
    funds.top_up_rewards(&amt(10));
    assert_eq!(val(&funds.reward_per_share), 3_333_333_333);
    assert_eq!(val(&funds.rewards_reserve), 10);
    // each token is owed at most a third of the top-up
    assert_eq!(val(&compute_reward(&amt(0), &funds.reward_per_share, &amt(1))), 3);
    funds.top_up_rewards(&amt(0));
    assert_eq!(val(&funds.rewards_reserve), 10);
    funds.ls_token_supply = amt(0);
    funds.top_up_rewards(&amt(10));
    assert_eq!(val(&funds.rewards_reserve), 10);
}

#[test]
fn slippage_lowers_amounts() {
    assert_eq!(check_slippage(0), Err(Error::InvalidSlippage));
    assert_eq!(check_slippage(10_000), Err(Error::InvalidSlippage));
    assert_eq!(check_slippage(1), Ok(9_999));
    assert_eq!(val(&from_ref(&amt(20_000), 1_50).unwrap()), 19_700);
    let mut a = amt(99_999);
    apply(&mut a, 9_999).unwrap();
    assert_eq!(val(&a), 9);
    assert_eq!(apply(&mut a, 10_000), Err(Error::InvalidSlippage));
    assert_eq!(val(&a), 9);
}

#[test]
fn interpolation_between_points() {
    assert_eq!(linear_interpolation(1, 1_000, 1, 10, 500), Ok(10));
    assert_eq!(linear_interpolation(1, 1_000, 1_000, 10, 500), Ok(500));
    assert_eq!(linear_interpolation(1, 1_000, 500, 10, 500), Ok(254));
    assert_eq!(linear_interpolation(1_001, 65_535, 65_535, 501, 6_553), Ok(6_553));
    assert_eq!(linear_interpolation(1, 1_000, 0, 10, 500), Err(Error::InvalidInterpolationArgs));
    assert_eq!(linear_interpolation(1, 1_000, 1_001, 10, 500), Err(Error::InvalidInterpolationArgs));
}

#[test]
fn pair_ratio_without_pairs() {
    let c = Config::new();
    assert_eq!(c.g_tokens_per_pair().err(), Some(Error::NoAvailablePairs));
    assert_eq!(c.pair_g_ratio(&TokenId::new(b"LST-123456".to_vec())), Err(Error::PairInfoNotFound));
    assert_eq!(c.pair_fee_ratio(&TokenId::new(b"LST-123456".to_vec())), Err(Error::PairInfoNotFound));
}

#[test]
fn esdt_identifier_format() {
    assert!(is_valid_esdt_identifier(&b"LST-123456".to_vec()));
    assert!(is_valid_esdt_identifier(&b"ABCDEFGHIJ-abc123".to_vec()));
    assert!(!is_valid_esdt_identifier(&b"AB-123456".to_vec()));
    assert!(!is_valid_esdt_identifier(&b"ABCDEFGHIJK-123456".to_vec()));
    assert!(!is_valid_esdt_identifier(&b"LSt-123456".to_vec()));
    assert!(!is_valid_esdt_identifier(&b"LST_123456".to_vec()));
    assert!(!is_valid_esdt_identifier(&b"LST-12345A".to_vec()));
}

#[test]
fn tickers_and_pair_addresses() {
    assert_eq!(get_ticker(b"str:GTK-123456"), b"GTK".to_vec());
    assert_eq!(get_ticker(b"BASE-123456"), b"BASE".to_vec());
    assert_eq!(get_ticker(b"NODASH"), b"NODASH".to_vec());
    assert_eq!(pair_addr_from_token_id(b"str:GTK-123456"), b"sc:GTK_pair".to_vec());
    assert_eq!(pair_addr_from_token_id(b"str:LST-123456"), b"sc:LST_pair".to_vec());
}

#[test]
fn block_state_moves() {
    let mut b = BlockState::new(500_000, 14_400);
    assert_eq!(b.info.block_epoch, 34);
    let info = b.move_block_round(14_000);
    assert_eq!(info.block_round, 514_000);
    assert_eq!(info.block_epoch, 35);
    let info = b.move_block_epoch(2);
    assert_eq!(info.block_epoch, 37);
    assert_eq!(info.block_round, 37 * 14_400);
    assert_eq!(b.info.block_round / b.rounds_per_epoch, b.info.block_epoch);
}

#[test]
fn big_num_helper() {
    assert_eq!(val(&big_num_pow_18(2)), 2_000_000_000_000_000_000);
    assert!(big_num_pow_18(10).to_u64().is_none());
}

#[test]
fn mocks_accept_calls() {
    let mock = MockContract;
    AkfMock::init(&mock);
    mock.add_uru_egld(1);
    DelegationProxyMock::init(&mock);
    mock.claim_rewards();
}
