//! Slippage tolerance: an amount reduced by a share given in hundredths of a
//! percent.

use crate::amount::Amount;
use crate::error::Error;
use vstd::prelude::*;

verus! {

/// 100.00%.
pub const MAX_PERCENTAGE: u64 = 100_00;

/// A slippage is valid when it lies in `1..MAX_PERCENTAGE`.
pub open spec fn valid_slippage(slippage: u64) -> bool {
    1 <= slippage < MAX_PERCENTAGE
}

/// `amount` less `slippage` hundredths of a percent, rounded down.
pub open spec fn spec_apply_slippage(amount: nat, slippage: u64) -> nat {
    amount * ((MAX_PERCENTAGE - slippage) as nat) / (MAX_PERCENTAGE as nat)
}

/// The share of an amount that a valid slippage keeps.
pub fn check_slippage(slippage: u64) -> (r: Result<u64, Error>)
    ensures
        valid_slippage(slippage) ==> r == Ok::<u64, Error>((MAX_PERCENTAGE - slippage) as u64),
        !valid_slippage(slippage) ==> r == Err::<u64, Error>(Error::InvalidSlippage),
{
    if !(1 <= slippage && slippage < MAX_PERCENTAGE) {
        return Err(Error::InvalidSlippage);
    }
    Ok(MAX_PERCENTAGE - slippage)
}

/// Reduces `amount` in place by `slippage`; an invalid slippage is refused
/// and leaves it unchanged.
pub fn apply(amount: &mut Amount, slippage: u64) -> (r: Result<(), Error>)
    ensures
        valid_slippage(slippage) ==> r is Ok && final(amount)@ == spec_apply_slippage(old(amount)@, slippage),
        !valid_slippage(slippage) ==> r == Err::<(), Error>(Error::InvalidSlippage) && final(amount)@ == old(amount)@,
{
    let kept = check_slippage(slippage)?;
    *amount = amount.mul_u64(kept).div_u64(MAX_PERCENTAGE);
    Ok(())
}

/// `amount` reduced by `slippage`; an invalid slippage is refused.
pub fn from_ref(amount: &Amount, slippage: u64) -> (r: Result<Amount, Error>)
    ensures
        valid_slippage(slippage) ==> (r matches Ok(v) && v@ == spec_apply_slippage(amount@, slippage)),
        !valid_slippage(slippage) ==> r == Err::<Amount, Error>(Error::InvalidSlippage),
{
    let kept = check_slippage(slippage)?;
    let value = amount.mul_u64(kept);
    Ok(value.div_u64(MAX_PERCENTAGE))
}

/// Slippage only ever lowers an amount, and lowers it by less than the
/// tolerated share plus one unit.
pub proof fn slippage_lowers_within_tolerance(amount: nat, slippage: u64)
    requires
        valid_slippage(slippage),
    ensures
        spec_apply_slippage(amount, slippage) <= amount,
        amount * ((MAX_PERCENTAGE - slippage) as nat) < (spec_apply_slippage(amount, slippage) + 1) * (MAX_PERCENTAGE as nat),
{
    let k = (MAX_PERCENTAGE - slippage) as nat;
    assert(amount * k / 10000 <= amount) by (nonlinear_arith)
        requires
            k <= 10000,
    ;
    assert(amount * k < (amount * k / 10000 + 1) * 10000) by (nonlinear_arith);
}

} // verus!
