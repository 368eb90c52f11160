//! Verified core of the CryptGain smart contracts: the liquid staking
//! reward accounting and the GToken pair bookkeeping, written as plain state
//! transitions that return the blockchain actions to perform.

pub mod amount;
pub mod token;
pub mod error;
pub mod funds;
pub mod reward_sharing;
pub mod dsc_module;
pub mod akf_interaction;
pub mod delegation_interaction;
pub mod liquid_staking;
pub mod liquidity_pool;
pub mod storage_cache;
pub mod math;
pub mod slippage;
pub mod keyed;
pub mod config;
pub mod pair_interactions;
pub mod router_interaction;
pub mod g_token;
pub mod fuzz_data;
pub mod mocks;
pub mod test_utils;
