//! The constant-product pricing rule.

use vstd::prelude::*;
use crate::error::CustomError;

verus! {

/// What a trade of `amount_in` receives from a pool that holds `reserve_in` of
/// the asset paid in and `reserve_out` of the asset paid out: the largest
/// whole number not above `reserve_out * amount_in / (reserve_in + amount_in)`.
/// No fee is taken.
pub open spec fn swap_output(reserve_in: nat, reserve_out: nat, amount_in: nat) -> nat {
    (reserve_out * amount_in) / (reserve_in + amount_in)
}

/// A trade never receives more than the pool holds of the asset paid out.
pub proof fn lemma_swap_output_within_reserve(reserve_in: nat, reserve_out: nat, amount_in: nat)
    requires
        amount_in > 0,
    ensures
        swap_output(reserve_in, reserve_out, amount_in) <= reserve_out,
{
    let d = reserve_in + amount_in;
    let p = reserve_out * amount_in;
    let q = p / d;
    assert(q <= reserve_out) by (nonlinear_arith)
        requires
            d >= amount_in,
            amount_in > 0,
            p == reserve_out * amount_in,
            q == p / d,
    ;
}

/// A trade never lowers the product of the two reserves.
pub proof fn lemma_swap_keeps_product(reserve_in: nat, reserve_out: nat, amount_in: nat)
    requires
        amount_in > 0,
    ensures
        (reserve_in + amount_in) * (reserve_out - swap_output(reserve_in, reserve_out, amount_in))
            >= reserve_in * reserve_out,
{
    let d = reserve_in + amount_in;
    let p = reserve_out * amount_in;
    let q = p / d;
    assert(d * (reserve_out - q) >= reserve_in * reserve_out) by (nonlinear_arith)
        requires
            d == reserve_in + amount_in,
            amount_in > 0,
            p == reserve_out * amount_in,
            q == p / d,
    ;
}

/// Prices a trade of `amount_in` against the two reserves. An empty trade is
/// turned down; every other trade has a price, computed without rounding
/// anywhere but in the final division.
pub fn amount_out(reserve_in: u64, reserve_out: u64, amount_in: u64) -> (result: Result<
    u64,
    CustomError,
>)
    ensures
        amount_in == 0 ==> result == Err::<u64, CustomError>(CustomError::ZeroAmount),
        amount_in > 0 ==> result == Ok::<u64, CustomError>(
            swap_output(reserve_in as nat, reserve_out as nat, amount_in as nat) as u64,
        ),
        amount_in > 0 ==> swap_output(reserve_in as nat, reserve_out as nat, amount_in as nat)
            <= reserve_out,
{
    if amount_in == 0 {
        return Err(CustomError::ZeroAmount);
    }
    proof {
        lemma_swap_output_within_reserve(reserve_in as nat, reserve_out as nat, amount_in as nat);
        assert(reserve_out * amount_in <= u128::MAX) by (nonlinear_arith)
            requires
                reserve_out <= u64::MAX,
                amount_in <= u64::MAX,
        ;
    }
    let product: u128 = (reserve_out as u128) * (amount_in as u128);
    let divisor: u128 = (reserve_in as u128) + (amount_in as u128);
    let quotient: u128 = product / divisor;
    Ok(quotient as u64)
}

} // verus!
