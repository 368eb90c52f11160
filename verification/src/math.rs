//! Linear interpolation between two points.

use crate::error::Error;
use vstd::prelude::*;

verus! {

/// The value at `current_in` of the line through `(min_in, min_out)` and
/// `(max_in, max_out)`, rounded down:
/// `(min_out * (max_in - current_in) + max_out * (current_in - min_in)) / (max_in - min_in)`.
pub open spec fn spec_linear_interpolation(min_in: nat, max_in: nat, current_in: nat, min_out: nat, max_out: nat) -> nat {
    (min_out * ((max_in - current_in) as nat) + max_out * ((current_in - min_in) as nat)) / ((max_in - min_in) as nat)
}

/// Linear interpolation on `u32`; a `current_in` outside
/// `min_in..=max_in` is refused. The weighted sum must fit in a `u32` and
/// the input range must not be empty.
pub fn linear_interpolation(min_in: u32, max_in: u32, current_in: u32, min_out: u32, max_out: u32) -> (r: Result<
    u32,
    Error,
>)
    requires
        min_in < max_in,
        (min_out as nat) * ((max_in - min_in) as nat) + (max_out as nat) * ((max_in - min_in) as nat) <= u32::MAX,
    ensures
        (current_in < min_in || current_in > max_in) ==> r == Err::<u32, Error>(Error::InvalidInterpolationArgs),
        min_in <= current_in <= max_in ==> (r matches Ok(v) && v == spec_linear_interpolation(
            min_in as nat,
            max_in as nat,
            current_in as nat,
            min_out as nat,
            max_out as nat,
        )),
{
    if current_in < min_in || current_in > max_in {
        return Err(Error::InvalidInterpolationArgs);
    }
    let d = max_in - min_in;
    let a = max_in - current_in;
    let b = current_in - min_in;
    proof {
        assert((min_out as nat) * (a as nat) <= (min_out as nat) * (d as nat)) by (nonlinear_arith)
            requires
                a <= d,
        ;
        assert((max_out as nat) * (b as nat) <= (max_out as nat) * (d as nat)) by (nonlinear_arith)
            requires
                b <= d,
        ;
    }
    let min_out_weighted = min_out * a;
    let max_out_weighted = max_out * b;
    Ok((min_out_weighted + max_out_weighted) / d)
}

/// The interpolated value lies between the two outputs.
pub proof fn interpolation_stays_between_outputs(min_in: nat, max_in: nat, current_in: nat, min_out: nat, max_out: nat)
    requires
        min_in < max_in,
        min_in <= current_in <= max_in,
        min_out <= max_out,
    ensures
        min_out <= spec_linear_interpolation(min_in, max_in, current_in, min_out, max_out) <= max_out,
{
    let d = (max_in - min_in) as nat;
    let a = (max_in - current_in) as nat;
    let b = (current_in - min_in) as nat;
    assert(a + b == d);
    assert(min_out * a + max_out * b >= min_out * d) by (nonlinear_arith)
        requires
            a + b == d,
            min_out <= max_out,
    ;
    assert(min_out * a + max_out * b <= max_out * d) by (nonlinear_arith)
        requires
            a + b == d,
            min_out <= max_out,
    ;
    assert((min_out * d) / d == min_out) by (nonlinear_arith)
        requires
            d > 0,
    ;
    assert((max_out * d) / d == max_out) by (nonlinear_arith)
        requires
            d > 0,
    ;
    assert((min_out * d) / d <= (min_out * a + max_out * b) / d) by (nonlinear_arith)
        requires
            d > 0,
            min_out * a + max_out * b >= min_out * d,
    ;
    assert((min_out * a + max_out * b) / d <= (max_out * d) / d) by (nonlinear_arith)
        requires
            d > 0,
            min_out * a + max_out * b <= max_out * d,
    ;
}

} // verus!
