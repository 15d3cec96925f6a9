//! Burning: index tokens given back and destroyed.

use vstd::prelude::*;
use crate::error::{CustomError, TransitionError};
use crate::ledger::{burn_from_user, BurnProgress, LedgerCall, Next};
use crate::state::UserAccount;

verus! {

/// One step of a burn: the record afterwards and the answer to the host.
///
/// The request is judged first, whatever the progress, and against the balance
/// that the protocol has on record, not against what the asset ledger holds.
/// An accepted request asks for the destruction of the index tokens and debits
/// the record only when that has gone through. An amount of zero is accepted.
pub open spec fn burn_step<E>(user: UserAccount, amount: u64, progress: BurnProgress<E>) -> (
    UserAccount,
    Result<Next, TransitionError<E>>,
) {
    if user.balance < amount {
        (user, Err(TransitionError::Rejected(CustomError::InsufficientBalance)))
    } else {
        match progress {
            BurnProgress::Requested => (user, Ok(Next::Perform(burn_from_user(amount)))),
            BurnProgress::Burned(Ok(_)) => (
                UserAccount { owner: user.owner, balance: (user.balance - amount) as u64 },
                Ok(Next::Settled),
            ),
            BurnProgress::Burned(Err(error)) => (user, Err(TransitionError::Ledger(error))),
        }
    }
}

/// Takes a burn of `amount` one step further.
///
/// The host calls this with `Requested`, performs the call that comes back,
/// and reports its reply as `Burned`. An `Err` at either step ends the burn.
pub fn burn_xlst<E>(
    user_account: &mut UserAccount,
    amount: u64,
    progress: BurnProgress<E>,
) -> (result: Result<Next, TransitionError<E>>)
    ensures
        (*final(user_account), result) == burn_step(*old(user_account), amount, progress),
        // A burn of more than the record holds is turned down, and nothing
        // changes: the balance never falls below zero.
        amount > old(user_account).balance ==> result == Err::<Next, TransitionError<E>>(
            TransitionError::Rejected(CustomError::InsufficientBalance),
        ),
        amount > old(user_account).balance ==> *final(user_account) == *old(user_account),
        // A refusal by the ledger ends the burn and leaves the record as it
        // was.
        (progress matches BurnProgress::Burned(Err(_))) ==> result is Err,
        (progress matches BurnProgress::Burned(Err(_))) ==> *final(user_account) == *old(user_account),
        // The record changes in one case only, and then by exactly `amount`.
        result == Ok::<Next, TransitionError<E>>(Next::Settled) ==> final(user_account).balance
            == old(user_account).balance - amount,
        result != Ok::<Next, TransitionError<E>>(Next::Settled) ==> *final(user_account) == *old(user_account),
        final(user_account).owner == old(user_account).owner,
{
    if user_account.balance < amount {
        return Err(TransitionError::Rejected(CustomError::InsufficientBalance));
    }
    match progress {
        BurnProgress::Requested => Ok(Next::Perform(LedgerCall::into_burn_context(amount))),
        BurnProgress::Burned(reply) => match reply {
            Ok(_) => match user_account.debit(amount) {
                Ok(_) => Ok(Next::Settled),
                Err(error) => Err(TransitionError::Rejected(error)),
            },
            Err(error) => Err(TransitionError::Ledger(error)),
        },
    }
}

} // verus!
