//! Failures of transitions.

use vstd::prelude::*;

verus! {

/// Why the protocol itself turned a request down.
#[derive(Clone, Copy, Debug, PartialEq, Eq, Structural)]
pub enum CustomError {
    /// A burn asked for more than the tracked balance holds.
    InsufficientBalance,
    /// The caller is not the administrator.
    Unauthorized,
    /// The computed swap output is below the caller's minimum.
    InsufficientOutputAmount,
    /// An amount that must be positive was zero.
    ZeroAmount,
    /// A checked addition would exceed the largest representable value.
    ArithmeticOverflow,
    /// A checked subtraction would fall below zero.
    ArithmeticUnderflow,
}

impl CustomError {
    /// The sentence that describes the error to a reader.
    pub open spec fn message_text(self) -> Seq<char> {
        match self {
            CustomError::InsufficientBalance => "Insufficient balance to perform the operation."@,
            CustomError::Unauthorized => "Unauthorized operation."@,
            CustomError::InsufficientOutputAmount => "Insufficient output amount for swap."@,
            CustomError::ZeroAmount => "Amount must be greater than zero."@,
            CustomError::ArithmeticOverflow => "Arithmetic overflow."@,
            CustomError::ArithmeticUnderflow => "Arithmetic underflow."@,
        }
    }

    /// The sentence that describes the error to a reader.
    pub fn message(&self) -> (text: &'static str)
        ensures
            text@ == self.message_text(),
    {
        match self {
            CustomError::InsufficientBalance => "Insufficient balance to perform the operation.",
            CustomError::Unauthorized => "Unauthorized operation.",
            CustomError::InsufficientOutputAmount => "Insufficient output amount for swap.",
            CustomError::ZeroAmount => "Amount must be greater than zero.",
            CustomError::ArithmeticOverflow => "Arithmetic overflow.",
            CustomError::ArithmeticUnderflow => "Arithmetic underflow.",
        }
    }
}

/// Why a transition that talks to the asset ledger stopped: either the
/// protocol rejected the request, or the ledger refused a call and its error
/// is handed on untouched.
#[derive(Debug, PartialEq, Eq)]
pub enum TransitionError<E> {
    Rejected(CustomError),
    Ledger(E),
}

} // verus!
