//! Swapping index tokens for the reserve asset.

use vstd::prelude::*;
use crate::error::CustomError;
use crate::pricing::{amount_out, lemma_swap_keeps_product, lemma_swap_output_within_reserve, swap_output};
use crate::state::LiquidityPool;

verus! {

impl LiquidityPool {
    /// What a trade of `amount_in` index tokens receives from this pool.
    pub open spec fn quote(self, amount_in: u64) -> nat {
        swap_output(self.xlst_balance as nat, self.sol_balance as nat, amount_in as nat)
    }

    /// The product that a trade may not lower.
    pub open spec fn product(self) -> nat {
        (self.xlst_balance * self.sol_balance) as nat
    }
}

/// Why a swap is turned down, if it is. The checks come in this order: the
/// two amounts, the price against the caller's minimum, the room left in the
/// reserve that is paid into.
pub open spec fn swap_rejection(pool: LiquidityPool, amount_in: u64, min_amount_out: u64) -> Option<
    CustomError,
> {
    if amount_in == 0 || min_amount_out == 0 {
        Some(CustomError::ZeroAmount)
    } else if pool.quote(amount_in) < min_amount_out {
        Some(CustomError::InsufficientOutputAmount)
    } else if pool.xlst_balance + amount_in > u64::MAX {
        Some(CustomError::ArithmeticOverflow)
    } else {
        None
    }
}

/// Trades `amount_in` index tokens for the reserve asset at the pool's price
/// and returns what the trade received.
///
/// Only the two reserves of the pool are moved: this is bookkeeping, and no
/// call to the asset ledger belongs to it.
pub fn swap(pool: &mut LiquidityPool, amount_in: u64, min_amount_out: u64) -> (result: Result<
    u64,
    CustomError,
>)
    ensures
        // When the swap goes through, and with which error it does not.
        match swap_rejection(*old(pool), amount_in, min_amount_out) {
            Some(error) => result == Err::<u64, CustomError>(error),
            None => result == Ok::<u64, CustomError>(old(pool).quote(amount_in) as u64),
        },
        // A rejected swap changes nothing.
        result is Err ==> *final(pool) == *old(pool),
        // An empty trade, or one with no minimum, is always rejected.
        amount_in == 0 || min_amount_out == 0 ==> result == Err::<u64, CustomError>(
            CustomError::ZeroAmount,
        ),
        // An accepted swap pays in full, pays out what it returns, and touches
        // nothing else.
        result matches Ok(paid_out) ==> {
            &&& paid_out == old(pool).quote(amount_in)
            &&& paid_out >= min_amount_out
            &&& paid_out <= old(pool).sol_balance
            &&& final(pool).xlst_balance == old(pool).xlst_balance + amount_in
            &&& final(pool).sol_balance == old(pool).sol_balance - paid_out
            &&& final(pool).stablecoin_balance == old(pool).stablecoin_balance
        },
        // No swap lowers the product of the two reserves.
        final(pool).product() >= old(pool).product(),
{
    if amount_in == 0 || min_amount_out == 0 {
        return Err(CustomError::ZeroAmount);
    }
    let paid_out = match amount_out(pool.xlst_balance, pool.sol_balance, amount_in) {
        Ok(paid_out) => paid_out,
        Err(error) => {
            return Err(error);
        },
    };
    if paid_out < min_amount_out {
        return Err(CustomError::InsufficientOutputAmount);
    }
    let paid_in = match pool.xlst_balance.checked_add(amount_in) {
        Some(paid_in) => paid_in,
        None => {
            return Err(CustomError::ArithmeticOverflow);
        },
    };
    proof {
        lemma_swap_output_within_reserve(
            pool.xlst_balance as nat,
            pool.sol_balance as nat,
            amount_in as nat,
        );
        lemma_swap_keeps_product(
            pool.xlst_balance as nat,
            pool.sol_balance as nat,
            amount_in as nat,
        );
    }
    pool.xlst_balance = paid_in;
    pool.sol_balance = pool.sol_balance - paid_out;
    Ok(paid_out)
}

} // verus!
