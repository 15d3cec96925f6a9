//! What holds of whole runs of mints and burns.
//!
//! A transition that talks to the asset ledger is taken in steps. The
//! functions here describe a run of those steps as the host makes it, and the
//! lemmas state what then holds of the record.

use vstd::prelude::*;
use crate::burn::burn_step;
use crate::error::{CustomError, TransitionError};
use crate::ledger::{BurnProgress, MintProgress, Next};
use crate::mint::{mint_rejection, mint_step};
use crate::state::UserAccount;

verus! {

/// A mint run to its end: the host starts it, performs each call that comes
/// back and reports the reply, and stops at the first `Err`.
///
/// `transfer` and `issue` are what the ledger answers to the two calls, should
/// they be made.
pub open spec fn mint_run<E>(
    user: UserAccount,
    amount: u64,
    transfer: Result<(), E>,
    issue: Result<(), E>,
) -> (UserAccount, Result<(), TransitionError<E>>) {
    let (user1, first) = mint_step::<E>(user, amount, MintProgress::Requested);
    match first {
        Err(error) => (user1, Err(error)),
        Ok(_) => {
            let (user2, second) = mint_step(user1, amount, MintProgress::Transferred(transfer));
            match second {
                Err(error) => (user2, Err(error)),
                Ok(_) => {
                    let (user3, third) = mint_step(user2, amount, MintProgress::Issued(issue));
                    match third {
                        Err(error) => (user3, Err(error)),
                        Ok(_) => (user3, Ok(())),
                    }
                },
            }
        },
    }
}

/// A burn run to its end, in the same way. `burn` is what the ledger answers
/// to the one call, should it be made.
pub open spec fn burn_run<E>(user: UserAccount, amount: u64, burn: Result<(), E>) -> (
    UserAccount,
    Result<(), TransitionError<E>>,
) {
    let (user1, first) = burn_step::<E>(user, amount, BurnProgress::Requested);
    match first {
        Err(error) => (user1, Err(error)),
        Ok(_) => {
            let (user2, second) = burn_step(user1, amount, BurnProgress::Burned(burn));
            match second {
                Err(error) => (user2, Err(error)),
                Ok(_) => (user2, Ok(())),
            }
        },
    }
}

/// A mint run succeeds exactly when the amount is positive, the balance can
/// hold it and the ledger accepts both calls. It then adds the amount to the
/// balance. In every other case the record is left as it was: a mint is never
/// half done.
pub proof fn lemma_mint_run<E>(
    user: UserAccount,
    amount: u64,
    transfer: Result<(), E>,
    issue: Result<(), E>,
)
    ensures
        ({
            let (after, result) = mint_run(user, amount, transfer, issue);
            &&& after.owner == user.owner
            &&& result is Ok <==> amount > 0 && user.balance + amount <= u64::MAX && transfer is Ok
                && issue is Ok
            &&& result is Ok ==> after.balance == user.balance + amount
            &&& result is Err ==> after == user
            &&& amount == 0 ==> result == Err::<(), TransitionError<E>>(
                TransitionError::Rejected(CustomError::ZeroAmount),
            )
            &&& amount > 0 && user.balance + amount > u64::MAX ==> result == Err::<
                (),
                TransitionError<E>,
            >(TransitionError::Rejected(CustomError::ArithmeticOverflow))
            &&& mint_rejection(user, amount) is None ==> (transfer matches Err(error) ==> result
                == Err::<(), TransitionError<E>>(TransitionError::Ledger(error)))
            &&& mint_rejection(user, amount) is None && transfer is Ok ==> (issue matches Err(error)
                ==> result == Err::<(), TransitionError<E>>(TransitionError::Ledger(error)))
        }),
{
}

/// A burn run succeeds exactly when the balance covers the amount and the
/// ledger accepts the call. It then takes the amount from the balance. In
/// every other case the record is left as it was.
pub proof fn lemma_burn_run<E>(user: UserAccount, amount: u64, burn: Result<(), E>)
    ensures
        ({
            let (after, result) = burn_run(user, amount, burn);
            &&& after.owner == user.owner
            &&& result is Ok <==> amount <= user.balance && burn is Ok
            &&& result is Ok ==> after.balance == user.balance - amount
            &&& result is Err ==> after == user
            &&& amount > user.balance ==> result == Err::<(), TransitionError<E>>(
                TransitionError::Rejected(CustomError::InsufficientBalance),
            )
            &&& amount <= user.balance ==> (burn matches Err(error) ==> result == Err::<
                (),
                TransitionError<E>,
            >(TransitionError::Ledger(error)))
        }),
{
}

/// One call of a mint or of a burn, with what the ledger answers to it.
pub enum Call<E> {
    Mint { amount: u64, transfer: Result<(), E>, issue: Result<(), E> },
    Burn { amount: u64, burn: Result<(), E> },
}

impl<E> Call<E> {
    /// The run of this call on `user`.
    pub open spec fn run(self, user: UserAccount) -> (UserAccount, Result<(), TransitionError<E>>) {
        match self {
            Call::Mint { amount, transfer, issue } => mint_run(user, amount, transfer, issue),
            Call::Burn { amount, burn } => burn_run(user, amount, burn),
        }
    }

    /// What the call adds to the balance of `user`: the amount of a mint that
    /// succeeds on it, and nothing else.
    pub open spec fn minted(self, user: UserAccount) -> nat {
        match self {
            Call::Mint { amount, .. } => if self.run(user).1 is Ok {
                amount as nat
            } else {
                0
            },
            Call::Burn { .. } => 0,
        }
    }

    /// What the call takes from the balance of `user`: the amount of a burn
    /// that succeeds on it, and nothing else.
    pub open spec fn burned(self, user: UserAccount) -> nat {
        match self {
            Call::Mint { .. } => 0,
            Call::Burn { amount, .. } => if self.run(user).1 is Ok {
                amount as nat
            } else {
                0
            },
        }
    }
}

/// The record of `user` after `calls`, made one after the other.
pub open spec fn replay<E>(user: UserAccount, calls: Seq<Call<E>>) -> UserAccount
    decreases calls.len(),
{
    if calls.len() == 0 {
        user
    } else {
        calls.last().run(replay(user, calls.drop_last())).0
    }
}

/// The sum of the amounts that the mints among `calls` added to the balance.
pub open spec fn total_minted<E>(user: UserAccount, calls: Seq<Call<E>>) -> nat
    decreases calls.len(),
{
    if calls.len() == 0 {
        0
    } else {
        total_minted(user, calls.drop_last()) + calls.last().minted(
            replay(user, calls.drop_last()),
        )
    }
}

/// The sum of the amounts that the burns among `calls` took from the balance.
pub open spec fn total_burned<E>(user: UserAccount, calls: Seq<Call<E>>) -> nat
    decreases calls.len(),
{
    if calls.len() == 0 {
        0
    } else {
        total_burned(user, calls.drop_last()) + calls.last().burned(
            replay(user, calls.drop_last()),
        )
    }
}

/// Conservation: after any sequence of mints and burns on one record, whatever
/// the ledger answered to each, the balance is what it was, plus what was
/// minted, minus what was burned. It never falls below zero and never wraps,
/// and the record keeps its owner.
pub proof fn lemma_conservation<E>(user: UserAccount, calls: Seq<Call<E>>)
    ensures
        replay(user, calls).balance == user.balance + total_minted(user, calls) - total_burned(
            user,
            calls,
        ),
        0 <= user.balance + total_minted(user, calls) - total_burned(user, calls) <= u64::MAX,
        replay(user, calls).owner == user.owner,
    decreases calls.len(),
{
    if calls.len() > 0 {
        let before = replay(user, calls.drop_last());
        lemma_conservation(user, calls.drop_last());
        match calls.last() {
            Call::Mint { amount, transfer, issue } => {
                lemma_mint_run(before, amount, transfer, issue);
            },
            Call::Burn { amount, burn } => {
                lemma_burn_run(before, amount, burn);
            },
        }
    }
}

/// A record that starts empty holds, after any sequence of mints and burns,
/// the sum of what was minted minus the sum of what was burned.
pub proof fn lemma_conservation_from_empty<E>(user: UserAccount, calls: Seq<Call<E>>)
    requires
        user.balance == 0,
    ensures
        replay(user, calls).balance == total_minted(user, calls) - total_burned(user, calls),
        total_burned(user, calls) <= total_minted(user, calls),
{
    lemma_conservation(user, calls);
}

} // verus!
