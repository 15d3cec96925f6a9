//! The records that the protocol keeps.

use vstd::prelude::*;
use crate::address::Address;
use crate::error::CustomError;

verus! {

/// Protocol-wide configuration: one per deployed protocol.
#[derive(Clone, Copy, Debug, PartialEq, Eq)]
pub struct GlobalState {
    /// The only identity that may change protocol-wide parameters.
    pub admin: Address,
    /// The current yield rate, as a raw number.
    pub base_yield_rate: u64,
    /// The asset that the protocol issues.
    pub index_token_mint: Address,
}

/// One participant's entry in the protocol's own ledger.
#[derive(Clone, Copy, Debug, PartialEq, Eq)]
pub struct UserAccount {
    pub owner: Address,
    /// Index tokens that the protocol has on record for the owner.
    pub balance: u64,
}

/// Reserves of the pool that the swap prices against.
#[derive(Clone, Copy, Debug, PartialEq, Eq)]
pub struct LiquidityPool {
    pub xlst_balance: u64,
    pub sol_balance: u64,
    pub stablecoin_balance: u64,
}

/// What a caller supplies when the protocol is set up.
#[derive(Clone, Copy, Debug, PartialEq, Eq, Structural)]
pub struct ConfigInput {
    pub base_yield_rate: u64,
}

/// The record that is published once the protocol has been set up.
#[derive(Clone, Copy, Debug, PartialEq, Eq)]
pub struct ProtocolInitialized {
    pub admin: Address,
    pub base_yield_rate: u64,
}

impl UserAccount {
    /// Adds `amount` to the balance, or reports overflow and changes nothing.
    pub fn credit(&mut self, amount: u64) -> (result: Result<(), CustomError>)
        ensures
            final(self).owner == old(self).owner,
            old(self).balance + amount <= u64::MAX ==> result == Ok::<(), CustomError>(())
                && final(self).balance == old(self).balance + amount,
            old(self).balance + amount > u64::MAX ==> result == Err::<(), CustomError>(
                CustomError::ArithmeticOverflow,
            ) && *final(self) == *old(self),
    {
        match self.balance.checked_add(amount) {
            Some(sum) => {
                self.balance = sum;
                Ok(())
            },
            None => Err(CustomError::ArithmeticOverflow),
        }
    }

    /// Takes `amount` from the balance, or reports underflow and changes
    /// nothing.
    pub fn debit(&mut self, amount: u64) -> (result: Result<(), CustomError>)
        ensures
            final(self).owner == old(self).owner,
            amount <= old(self).balance ==> result == Ok::<(), CustomError>(())
                && final(self).balance == old(self).balance - amount,
            amount > old(self).balance ==> result == Err::<(), CustomError>(
                CustomError::ArithmeticUnderflow,
            ) && *final(self) == *old(self),
    {
        match self.balance.checked_sub(amount) {
            Some(rest) => {
                self.balance = rest;
                Ok(())
            },
            None => Err(CustomError::ArithmeticUnderflow),
        }
    }
}

} // verus!
