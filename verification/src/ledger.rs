//! What the protocol asks of the asset ledger, as plain values.
//!
//! The ledger moves the collateral and the index token. It is reached by the
//! host, never from here: a transition names the call that is due and is told
//! afterwards how the call went.

use vstd::prelude::*;

verus! {

/// An account that takes part in a transition, named by the part it plays.
#[derive(Clone, Copy, Debug, PartialEq, Eq, Structural)]
pub enum Party {
    /// The user's entry in the protocol's own ledger.
    UserAccount,
    /// The protocol's configuration record.
    GlobalState,
    /// The user's account on the asset ledger.
    UserTokenAccount,
    /// The protocol's pool account on the asset ledger.
    ProtocolTokenAccount,
    /// The definition of the index token on the asset ledger.
    IndexTokenMint,
}

/// One call to the asset ledger.
#[derive(Clone, Copy, Debug, PartialEq, Eq, Structural)]
pub enum LedgerCall {
    /// Move `amount` from one ledger account to another.
    Transfer { from: Party, to: Party, authority: Party, amount: u64 },
    /// Create `amount` of an asset in a ledger account.
    MintTo { mint: Party, to: Party, authority: Party, amount: u64 },
    /// Destroy `amount` of an asset held in a ledger account.
    Burn { mint: Party, from: Party, authority: Party, amount: u64 },
}

/// What the host does once a step of a transition has been accepted.
#[derive(Clone, Copy, Debug, PartialEq, Eq, Structural)]
pub enum Next {
    /// Make this call on the asset ledger and come back with its reply.
    Perform(LedgerCall),
    /// Nothing more: the transition is complete and the record is updated.
    Settled,
}

/// The collateral that backs a mint: from the user's ledger account to the
/// protocol's pool account.
///
/// The authority is the user's protocol record, not a key that the user signs
/// with.
pub open spec fn transfer_to_pool(amount: u64) -> LedgerCall {
    LedgerCall::Transfer {
        from: Party::UserTokenAccount,
        to: Party::ProtocolTokenAccount,
        authority: Party::UserAccount,
        amount,
    }
}

/// The index tokens that a mint issues: into the user's ledger account, on the
/// authority of the protocol's configuration record.
pub open spec fn mint_to_user(amount: u64) -> LedgerCall {
    LedgerCall::MintTo {
        mint: Party::IndexTokenMint,
        to: Party::UserTokenAccount,
        authority: Party::GlobalState,
        amount,
    }
}

/// The index tokens that a burn destroys: out of the user's ledger account.
///
/// The authority is the user's protocol record, not a key that the user signs
/// with.
pub open spec fn burn_from_user(amount: u64) -> LedgerCall {
    LedgerCall::Burn {
        mint: Party::IndexTokenMint,
        from: Party::UserTokenAccount,
        authority: Party::UserAccount,
        amount,
    }
}

impl LedgerCall {
    /// The call that moves a mint's collateral into the pool.
    pub fn into_transfer_to_pool_context(amount: u64) -> (call: LedgerCall)
        ensures
            call == transfer_to_pool(amount),
    {
        LedgerCall::Transfer {
            from: Party::UserTokenAccount,
            to: Party::ProtocolTokenAccount,
            authority: Party::UserAccount,
            amount,
        }
    }

    /// The call that issues a mint's index tokens to the user.
    pub fn into_mint_to_context(amount: u64) -> (call: LedgerCall)
        ensures
            call == mint_to_user(amount),
    {
        LedgerCall::MintTo {
            mint: Party::IndexTokenMint,
            to: Party::UserTokenAccount,
            authority: Party::GlobalState,
            amount,
        }
    }

    /// The call that destroys a burn's index tokens.
    pub fn into_burn_context(amount: u64) -> (call: LedgerCall)
        ensures
            call == burn_from_user(amount),
    {
        LedgerCall::Burn {
            mint: Party::IndexTokenMint,
            from: Party::UserTokenAccount,
            authority: Party::UserAccount,
            amount,
        }
    }
}

/// How far a mint has come: which ledger calls have returned, and how.
#[derive(Debug, PartialEq, Eq)]
pub enum MintProgress<E> {
    /// No ledger call has been made yet.
    Requested,
    /// The transfer of the collateral has returned.
    Transferred(Result<(), E>),
    /// The transfer went through, and the issue of the index tokens has
    /// returned.
    Issued(Result<(), E>),
}

/// How far a burn has come.
#[derive(Debug, PartialEq, Eq)]
pub enum BurnProgress<E> {
    /// No ledger call has been made yet.
    Requested,
    /// The destruction of the index tokens has returned.
    Burned(Result<(), E>),
}

} // verus!
