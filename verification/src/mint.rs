//! Minting: index tokens against collateral.

use vstd::prelude::*;
use crate::error::{CustomError, TransitionError};
use crate::ledger::{mint_to_user, transfer_to_pool, LedgerCall, MintProgress, Next};
use crate::state::UserAccount;

verus! {

/// Why a mint of `amount` to `user` is turned down before the ledger is
/// asked for anything, if it is.
pub open spec fn mint_rejection(user: UserAccount, amount: u64) -> Option<CustomError> {
    if amount == 0 {
        Some(CustomError::ZeroAmount)
    } else if user.balance + amount > u64::MAX {
        Some(CustomError::ArithmeticOverflow)
    } else {
        None
    }
}

/// One step of a mint: the record afterwards and the answer to the host.
///
/// The request is judged first, whatever the progress. An accepted request
/// asks for the transfer of the collateral, then for the issue of the index
/// tokens, and credits the record only when both have gone through. A refusal
/// by the ledger ends the mint and is handed on; the record stays as it was.
pub open spec fn mint_step<E>(user: UserAccount, amount: u64, progress: MintProgress<E>) -> (
    UserAccount,
    Result<Next, TransitionError<E>>,
) {
    match mint_rejection(user, amount) {
        Some(error) => (user, Err(TransitionError::Rejected(error))),
        None => match progress {
            MintProgress::Requested => (user, Ok(Next::Perform(transfer_to_pool(amount)))),
            MintProgress::Transferred(Ok(_)) => (user, Ok(Next::Perform(mint_to_user(amount)))),
            MintProgress::Transferred(Err(error)) => (user, Err(TransitionError::Ledger(error))),
            MintProgress::Issued(Ok(_)) => (
                UserAccount { owner: user.owner, balance: (user.balance + amount) as u64 },
                Ok(Next::Settled),
            ),
            MintProgress::Issued(Err(error)) => (user, Err(TransitionError::Ledger(error))),
        },
    }
}

/// Takes a mint of `amount` one step further.
///
/// The host calls this with `Requested`, performs the call that comes back,
/// reports its reply as `Transferred`, performs the second call, and reports
/// that reply as `Issued`. An `Err` at any step ends the mint; whatever the
/// ledger did before is for the host's transaction to undo.
pub fn mint_xlst<E>(
    user_account: &mut UserAccount,
    amount: u64,
    progress: MintProgress<E>,
) -> (result: Result<Next, TransitionError<E>>)
    ensures
        (*final(user_account), result) == mint_step(*old(user_account), amount, progress),
        // An empty mint is turned down, and nothing changes.
        amount == 0 ==> result == Err::<Next, TransitionError<E>>(
            TransitionError::Rejected(CustomError::ZeroAmount),
        ),
        amount == 0 ==> *final(user_account) == *old(user_account),
        // A mint that the balance cannot hold is turned down, and nothing
        // changes: the balance never wraps.
        amount > 0 && old(user_account).balance + amount > u64::MAX ==> result == Err::<
            Next,
            TransitionError<E>,
        >(TransitionError::Rejected(CustomError::ArithmeticOverflow)),
        old(user_account).balance + amount > u64::MAX ==> *final(user_account) == *old(user_account),
        // A refusal by the ledger, of the transfer or of the issue, ends the
        // mint and leaves the record as it was.
        (progress matches MintProgress::Transferred(Err(_))) ==> result is Err,
        (progress matches MintProgress::Transferred(Err(_))) ==> *final(user_account) == *old(user_account),
        (progress matches MintProgress::Issued(Err(_))) ==> result is Err,
        (progress matches MintProgress::Issued(Err(_))) ==> *final(user_account) == *old(user_account),
        // The record changes in one case only, and then by exactly `amount`.
        result == Ok::<Next, TransitionError<E>>(Next::Settled) ==> final(user_account).balance
            == old(user_account).balance + amount,
        result != Ok::<Next, TransitionError<E>>(Next::Settled) ==> *final(user_account) == *old(user_account),
        final(user_account).owner == old(user_account).owner,
{
    if amount == 0 {
        return Err(TransitionError::Rejected(CustomError::ZeroAmount));
    }
    if user_account.balance > u64::MAX - amount {
        return Err(TransitionError::Rejected(CustomError::ArithmeticOverflow));
    }
    match progress {
        MintProgress::Requested => Ok(
            Next::Perform(LedgerCall::into_transfer_to_pool_context(amount)),
        ),
        MintProgress::Transferred(reply) => match reply {
            Ok(_) => Ok(Next::Perform(LedgerCall::into_mint_to_context(amount))),
            Err(error) => Err(TransitionError::Ledger(error)),
        },
        MintProgress::Issued(reply) => match reply {
            Ok(_) => match user_account.credit(amount) {
                Ok(_) => Ok(Next::Settled),
                Err(error) => Err(TransitionError::Rejected(error)),
            },
            Err(error) => Err(TransitionError::Ledger(error)),
        },
    }
}

} // verus!
