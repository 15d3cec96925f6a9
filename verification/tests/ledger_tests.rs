use xlst_index::{
    burn_xlst, mint_xlst, Address, BurnProgress, CustomError, LedgerCall, MintProgress, Next, Party,
    TransitionError, UserAccount,
};

type Refusal = &'static str;

fn user(balance: u64) -> UserAccount {
    UserAccount { owner: Address::new([5; 32]), balance }
}

fn rejected(error: CustomError) -> Result<Next, TransitionError<Refusal>> {
    Err(TransitionError::Rejected(error))
}

/// Runs a mint as a host does: each call that comes back is answered from
/// `replies`, in order.
fn run_mint(account: &mut UserAccount, amount: u64, replies: [Result<(), Refusal>; 2]) -> (Vec<LedgerCall>, Result<(), TransitionError<Refusal>>) {
    let mut calls = Vec::new();
    match mint_xlst(account, amount, MintProgress::Requested) {
        Ok(Next::Perform(call)) => calls.push(call),
        Ok(Next::Settled) => return (calls, Ok(())),
        Err(error) => return (calls, Err(error)),
    }
    match mint_xlst(account, amount, MintProgress::Transferred(replies[0])) {
        Ok(Next::Perform(call)) => calls.push(call),
        Ok(Next::Settled) => return (calls, Ok(())),
        Err(error) => return (calls, Err(error)),
    }
    match mint_xlst(account, amount, MintProgress::Issued(replies[1])) {
        Ok(Next::Perform(call)) => {
            calls.push(call);
            (calls, Ok(()))
        }
        Ok(Next::Settled) => (calls, Ok(())),
        Err(error) => (calls, Err(error)),
    }
}

fn run_burn(account: &mut UserAccount, amount: u64, reply: Result<(), Refusal>) -> (Vec<LedgerCall>, Result<(), TransitionError<Refusal>>) {
    let mut calls = Vec::new();
    match burn_xlst(account, amount, BurnProgress::Requested) {
        Ok(Next::Perform(call)) => calls.push(call),
        Ok(Next::Settled) => return (calls, Ok(())),
        Err(error) => return (calls, Err(error)),
    }
    match burn_xlst(account, amount, BurnProgress::Burned(reply)) {
        Ok(Next::Perform(call)) => {
            calls.push(call);
            (calls, Ok(()))
        }
        Ok(Next::Settled) => (calls, Ok(())),
        Err(error) => (calls, Err(error)),
    }
}

fn transfer(amount: u64) -> LedgerCall {
    LedgerCall::Transfer {
        from: Party::UserTokenAccount,
        to: Party::ProtocolTokenAccount,
        authority: Party::UserAccount,
        amount,
    }
}

fn issue(amount: u64) -> LedgerCall {
    LedgerCall::MintTo {
        mint: Party::IndexTokenMint,
        to: Party::UserTokenAccount,
        authority: Party::GlobalState,
        amount,
    }
}

fn destroy(amount: u64) -> LedgerCall {
    LedgerCall::Burn {
        mint: Party::IndexTokenMint,
        from: Party::UserTokenAccount,
        authority: Party::UserAccount,
        amount,
    }
}

#[test]
fn mint_steps_in_order() {
    let mut account = user(50);
    assert_eq!(mint_xlst::<Refusal>(&mut account, 10, MintProgress::Requested), Ok(Next::Perform(transfer(10))));
    assert_eq!(account, user(50));
    assert_eq!(mint_xlst::<Refusal>(&mut account, 10, MintProgress::Transferred(Ok(()))), Ok(Next::Perform(issue(10))));
    assert_eq!(account, user(50));
    assert_eq!(mint_xlst::<Refusal>(&mut account, 10, MintProgress::Issued(Ok(()))), Ok(Next::Settled));
    assert_eq!(account, user(60));
}

#[test]
fn mint_run_makes_both_calls_then_credits() {
    let mut account = user(0);
    let (calls, result) = run_mint(&mut account, 25, [Ok(()), Ok(())]);
    assert_eq!(calls, vec![transfer(25), issue(25)]);
    assert_eq!(result, Ok(()));
    assert_eq!(account, user(25));
}

#[test]
fn mint_zero_is_rejected_at_every_step() {
    let mut account = user(50);
    assert_eq!(mint_xlst(&mut account, 0, MintProgress::Requested), rejected(CustomError::ZeroAmount));
    assert_eq!(mint_xlst(&mut account, 0, MintProgress::Transferred(Ok(()))), rejected(CustomError::ZeroAmount));
    assert_eq!(mint_xlst(&mut account, 0, MintProgress::Issued(Ok(()))), rejected(CustomError::ZeroAmount));
    assert_eq!(mint_xlst(&mut account, 0, MintProgress::Issued(Err("no"))), rejected(CustomError::ZeroAmount));
    let (calls, result) = run_mint(&mut account, 0, [Ok(()), Ok(())]);
    assert!(calls.is_empty());
    assert_eq!(result, Err(TransitionError::Rejected(CustomError::ZeroAmount)));
    assert_eq!(account, user(50));
}

#[test]
fn mint_overflow_is_rejected_before_any_call() {
    let mut account = user(u64::MAX - 9);
    let (calls, result) = run_mint(&mut account, 10, [Ok(()), Ok(())]);
    assert!(calls.is_empty());
    assert_eq!(result, Err(TransitionError::Rejected(CustomError::ArithmeticOverflow)));
    assert_eq!(account, user(u64::MAX - 9));
    assert_eq!(mint_xlst(&mut account, u64::MAX, MintProgress::Issued(Ok(()))), rejected(CustomError::ArithmeticOverflow));
    assert_eq!(account, user(u64::MAX - 9));
    // The largest mint that still fits goes through.
    let (calls, result) = run_mint(&mut account, 9, [Ok(()), Ok(())]);
    assert_eq!(calls.len(), 2);
    assert_eq!(result, Ok(()));
    assert_eq!(account, user(u64::MAX));
}

#[test]
fn mint_stops_when_the_transfer_fails() {
    let mut account = user(50);
    let (calls, result) = run_mint(&mut account, 10, [Err("no collateral"), Ok(())]);
    assert_eq!(calls, vec![transfer(10)]);
    assert_eq!(result, Err(TransitionError::Ledger("no collateral")));
    assert_eq!(account, user(50));
}

#[test]
fn mint_stops_when_the_issue_fails() {
    let mut account = user(50);
    let (calls, result) = run_mint(&mut account, 10, [Ok(()), Err("bad authority")]);
    assert_eq!(calls, vec![transfer(10), issue(10)]);
    assert_eq!(result, Err(TransitionError::Ledger("bad authority")));
    assert_eq!(account, user(50));
}

#[test]
fn burn_more_than_balance_is_rejected() {
    let mut account = user(50);
    assert_eq!(burn_xlst(&mut account, 51, BurnProgress::Requested), rejected(CustomError::InsufficientBalance));
    assert_eq!(burn_xlst(&mut account, 51, BurnProgress::Burned(Ok(()))), rejected(CustomError::InsufficientBalance));
    let (calls, result) = run_burn(&mut account, 51, Ok(()));
    assert!(calls.is_empty());
    assert_eq!(result, Err(TransitionError::Rejected(CustomError::InsufficientBalance)));
    assert_eq!(account.balance, 50);
    assert_eq!(account, user(50));
}

#[test]
fn burn_run_makes_the_call_then_debits() {
    let mut account = user(50);
    let (calls, result) = run_burn(&mut account, 20, Ok(()));
    assert_eq!(calls, vec![destroy(20)]);
    assert_eq!(result, Ok(()));
    assert_eq!(account, user(30));
    let (calls, result) = run_burn(&mut account, 30, Ok(()));
    assert_eq!(calls, vec![destroy(30)]);
    assert_eq!(result, Ok(()));
    assert_eq!(account, user(0));
}

#[test]
fn burn_zero_is_accepted() {
    let mut account = user(50);
    let (calls, result) = run_burn(&mut account, 0, Ok(()));
    assert_eq!(calls, vec![destroy(0)]);
    assert_eq!(result, Ok(()));
    assert_eq!(account, user(50));
    let mut empty = user(0);
    assert_eq!(run_burn(&mut empty, 0, Ok(())).1, Ok(()));
    assert_eq!(empty, user(0));
}

#[test]
fn burn_stops_when_the_ledger_refuses() {
    let mut account = user(50);
    let (calls, result) = run_burn(&mut account, 20, Err("mismatch"));
    assert_eq!(calls, vec![destroy(20)]);
    assert_eq!(result, Err(TransitionError::Ledger("mismatch")));
    assert_eq!(account, user(50));
}

#[test]
fn balance_is_minted_minus_burned() {
    let mut account = user(0);
    let mut minted: u128 = 0;
    let mut burned: u128 = 0;
    let mints: [(u64, [Result<(), Refusal>; 2]); 5] = [
        (100, [Ok(()), Ok(())]),
        (0, [Ok(()), Ok(())]),
        (40, [Err("no"), Ok(())]),
        (7, [Ok(()), Err("no")]),
        (u64::MAX, [Ok(()), Ok(())]),
    ];
    let burns: [(u64, Result<(), Refusal>); 5] =
        [(30, Ok(())), (1000, Ok(())), (0, Ok(())), (5, Err("no")), (70, Ok(()))];
    for i in 0..5 {
        let (amount, replies) = mints[i];
        if run_mint(&mut account, amount, replies).1.is_ok() {
            minted += amount as u128;
        }
        let (amount, reply) = burns[i];
        if run_burn(&mut account, amount, reply).1.is_ok() {
            burned += amount as u128;
        }
        assert_eq!(account.balance as u128, minted - burned);
        assert_eq!(account.owner, Address::new([5; 32]));
    }
    assert_eq!(minted, 100);
    assert_eq!(burned, 100);
    assert_eq!(account, user(0));
}

#[test]
fn credit_and_debit_are_checked() {
    let mut account = user(50);
    assert_eq!(account.credit(5), Ok(()));
    assert_eq!(account, user(55));
    assert_eq!(account.credit(u64::MAX - 54), Err(CustomError::ArithmeticOverflow));
    assert_eq!(account, user(55));
    assert_eq!(account.credit(u64::MAX - 55), Ok(()));
    assert_eq!(account, user(u64::MAX));
    assert_eq!(account.debit(u64::MAX - 50), Ok(()));
    assert_eq!(account, user(50));
    assert_eq!(account.debit(51), Err(CustomError::ArithmeticUnderflow));
    assert_eq!(account, user(50));
    assert_eq!(account.debit(50), Ok(()));
    assert_eq!(account, user(0));
}

#[test]
fn ledger_calls_name_their_parties() {
    assert_eq!(LedgerCall::into_transfer_to_pool_context(3), transfer(3));
    assert_eq!(LedgerCall::into_mint_to_context(4), issue(4));
    assert_eq!(LedgerCall::into_burn_context(5), destroy(5));
}
