//! Unbounded token amounts.
//!
//! On chain every amount is a managed `BigUint`, an integer of any size whose
//! arithmetic the VM carries out with `num_bigint`. Here an amount holds its
//! big-endian bytes and its view is the natural number they denote; the
//! arithmetic itself is done by `num_bigint::BigUint`.

use num_bigint::BigUint;
use num_traits::ToPrimitive;
use vstd::arithmetic::power::pow;
use vstd::prelude::*;

verus! {

/// The value of a big-endian sequence of bytes (the empty sequence is zero).
pub open spec fn be_value(bytes: Seq<u8>) -> nat
    decreases bytes.len(),
{
    if bytes.len() == 0 {
        0
    } else {
        be_value(bytes.drop_last()) * 256 + (bytes.last() as nat)
    }
}

/// The largest value that the managed `BigUint::to_u64` of the framework
/// converts: the VM converts through a signed 64-bit integer.
pub open spec fn max_convertible() -> nat {
    0x7fff_ffff_ffff_ffff
}

/// A non-negative integer of any size, held as its big-endian bytes.
pub struct Amount {
    bytes: Vec<u8>,
}

impl View for Amount {
    type V = nat;

    closed spec fn view(&self) -> nat {
        be_value(self.bytes@)
    }
}

/// `BigUint::from(u64)`: the amount equal to `x`.
#[verifier::external_body]
fn big_from_u64(x: u64) -> (r: Amount)
    ensures
        r@ == x,
{
    Amount { bytes: BigUint::from(x).to_bytes_be() }
}

/// `BigUint + BigUint`: the exact sum.
#[verifier::external_body]
fn big_add(a: &Amount, b: &Amount) -> (r: Amount)
    ensures
        r@ == a@ + b@,
{
    let x = BigUint::from_bytes_be(&a.bytes);
    let y = BigUint::from_bytes_be(&b.bytes);
    Amount { bytes: (x + y).to_bytes_be() }
}

/// `BigUint - BigUint`: the exact difference; `num_bigint` panics when `b`
/// exceeds `a`, so that input is left out.
#[verifier::external_body]
fn big_sub(a: &Amount, b: &Amount) -> (r: Amount)
    requires
        b@ <= a@,
    ensures
        r@ == a@ - b@,
{
    let x = BigUint::from_bytes_be(&a.bytes);
    let y = BigUint::from_bytes_be(&b.bytes);
    Amount { bytes: (x - y).to_bytes_be() }
}

/// `BigUint * BigUint`: the exact product.
#[verifier::external_body]
fn big_mul(a: &Amount, b: &Amount) -> (r: Amount)
    ensures
        r@ == a@ * b@,
{
    let x = BigUint::from_bytes_be(&a.bytes);
    let y = BigUint::from_bytes_be(&b.bytes);
    Amount { bytes: (x * y).to_bytes_be() }
}

/// `BigUint / BigUint`: the quotient rounded down; `num_bigint` panics on a
/// zero divisor, so that input is left out.
#[verifier::external_body]
fn big_div(a: &Amount, b: &Amount) -> (r: Amount)
    requires
        b@ != 0,
    ensures
        r@ == a@ / b@,
{
    let x = BigUint::from_bytes_be(&a.bytes);
    let y = BigUint::from_bytes_be(&b.bytes);
    Amount { bytes: (x / y).to_bytes_be() }
}

/// `BigUint < BigUint`: whether `a` is smaller than `b`.
#[verifier::external_body]
fn big_lt(a: &Amount, b: &Amount) -> (r: bool)
    ensures
        r == (a@ < b@),
{
    let x = BigUint::from_bytes_be(&a.bytes);
    let y = BigUint::from_bytes_be(&b.bytes);
    x < y
}

/// `BigUint::pow`: `a` raised to the power `e`.
#[verifier::external_body]
fn big_pow(a: &Amount, e: u32) -> (r: Amount)
    ensures
        r@ == pow(a@ as int, e as nat),
{
    let x = BigUint::from_bytes_be(&a.bytes);
    Amount { bytes: x.pow(e).to_bytes_be() }
}

/// `ToPrimitive::to_u64` of `num_bigint`: the value as a `u64` where it
/// fits in one.
#[verifier::external_body]
fn big_to_u64(a: &Amount) -> (r: Option<u64>)
    ensures
        r == (if a@ <= u64::MAX {
            Some(a@ as u64)
        } else {
            None::<u64>
        }),
{
    BigUint::from_bytes_be(&a.bytes).to_u64()
}

impl Amount {
    /// Zero.
    pub fn zero() -> (r: Amount)
        ensures
            r@ == 0,
    {
        Amount { bytes: Vec::new() }
    }

    /// The amount whose big-endian bytes are `bytes`.
    pub fn from_bytes_be(bytes: Vec<u8>) -> (r: Amount)
        ensures
            r@ == be_value(bytes@),
    {
        Amount { bytes }
    }

    /// Big-endian bytes that denote this amount.
    pub fn to_bytes_be(&self) -> (r: Vec<u8>)
        ensures
            be_value(r@) == self@,
    {
        self.bytes.clone()
    }

    /// The amount equal to `x`.
    pub fn from_u64(x: u64) -> (r: Amount)
        ensures
            r@ == x,
    {
        big_from_u64(x)
    }

    /// A copy of this amount.
    pub fn duplicate(&self) -> (r: Amount)
        ensures
            r@ == self@,
    {
        Amount { bytes: self.bytes.clone() }
    }

    /// `self + other`.
    pub fn add(&self, other: &Amount) -> (r: Amount)
        ensures
            r@ == self@ + other@,
    {
        big_add(self, other)
    }

    /// `self - other`, which is defined when `other` does not exceed `self`.
    pub fn sub(&self, other: &Amount) -> (r: Amount)
        requires
            other@ <= self@,
        ensures
            r@ == self@ - other@,
    {
        big_sub(self, other)
    }

    /// `self - other`, or `None` where the managed `BigUint` of the
    /// framework refuses the subtraction because the result would be negative.
    pub fn checked_sub(&self, other: &Amount) -> (r: Option<Amount>)
        ensures
            other@ <= self@ ==> (r matches Some(d) && d@ == self@ - other@),
            other@ > self@ ==> r is None,
    {
        if big_lt(self, other) {
            None
        } else {
            Some(big_sub(self, other))
        }
    }

    /// `self * other`.
    pub fn mul(&self, other: &Amount) -> (r: Amount)
        ensures
            r@ == self@ * other@,
    {
        big_mul(self, other)
    }

    /// `self * x`.
    pub fn mul_u64(&self, x: u64) -> (r: Amount)
        ensures
            r@ == self@ * x,
    {
        big_mul(self, &big_from_u64(x))
    }

    /// `self / other`, rounded down; defined for a non-zero divisor.
    pub fn div(&self, other: &Amount) -> (r: Amount)
        requires
            other@ != 0,
        ensures
            r@ == self@ / other@,
    {
        big_div(self, other)
    }

    /// `self / x`, rounded down; defined for a non-zero divisor.
    pub fn div_u64(&self, x: u64) -> (r: Amount)
        requires
            x != 0,
        ensures
            r@ == self@ / (x as nat),
    {
        big_div(self, &big_from_u64(x))
    }

    /// `self` raised to the power `e`.
    pub fn pow(&self, e: u32) -> (r: Amount)
        ensures
            r@ == pow(self@ as int, e as nat),
    {
        big_pow(self, e)
    }

    /// `self < other`.
    pub fn lt(&self, other: &Amount) -> (r: bool)
        ensures
            r == (self@ < other@),
    {
        big_lt(self, other)
    }

    /// `self <= other`.
    pub fn le(&self, other: &Amount) -> (r: bool)
        ensures
            r == (self@ <= other@),
    {
        !big_lt(other, self)
    }

    /// `self == other`, by value.
    pub fn eq(&self, other: &Amount) -> (r: bool)
        ensures
            r == (self@ == other@),
    {
        !big_lt(self, other) && !big_lt(other, self)
    }

    /// Whether the amount is zero.
    pub fn is_zero(&self) -> (r: bool)
        ensures
            r == (self@ == 0),
    {
        !big_lt(&Amount::zero(), self)
    }

    /// Whether the amount is at least `x`.
    pub fn ge_u64(&self, x: u64) -> (r: bool)
        ensures
            r == (self@ >= x),
    {
        !big_lt(self, &big_from_u64(x))
    }

    /// The value as a `u64`, as the managed `BigUint::to_u64` of the
    /// framework gives it: `Some` exactly for values up to `i64::MAX`.
    pub fn to_u64(&self) -> (r: Option<u64>)
        ensures
            r == (if self@ <= max_convertible() {
                Some(self@ as u64)
            } else {
                None::<u64>
            }),
    {
        if big_lt(&big_from_u64(0x7fff_ffff_ffff_ffff), self) {
            None
        } else {
            big_to_u64(self)
        }
    }
}

} // verus!
