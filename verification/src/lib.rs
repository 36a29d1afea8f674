//! A single savings account with a non-negative integer balance.
//!
//! The account supports creation, a balance read, deposits and withdrawals.
//! A deposit that would push the balance past `u128::MAX` fails with
//! [`AccountError::ArithmeticOverflow`]; a withdrawal of more than the balance
//! fails with [`AccountError::InsufficientFunds`]. On failure the balance is
//! unchanged. Both conditions are surfaced as a recoverable `Result` rather
//! than a fatal abort, so callers can decide; each carries a distinguishable
//! variant with a fixed message.

use vstd::prelude::*;

pub mod reset;

verus! {

/// The only two ways an account operation can fail.
#[derive(Clone, Copy, Debug, PartialEq, Eq, Structural)]
pub enum AccountError {
    /// A withdrawal asked for more than the account holds.
    InsufficientFunds,
    /// A deposit would push the balance past `u128::MAX`.
    ArithmeticOverflow,
}

impl AccountError {
    /// The human-readable message carried by this error.
    pub fn message(&self) -> (r: &'static str)
        ensures
            *self is InsufficientFunds ==> r@ == "Not enough balance"@,
            *self is ArithmeticOverflow ==> r@ == "Balance overflow"@,
    {
        match self {
            AccountError::InsufficientFunds => "Not enough balance",
            AccountError::ArithmeticOverflow => "Balance overflow",
        }
    }
}

/// What depositing `amount` into a balance yields: the increased balance when
/// the sum still fits in the balance's width, and `ArithmeticOverflow`
/// otherwise.
pub open spec fn deposit_outcome(balance: nat, amount: nat) -> Result<nat, AccountError> {
    if balance + amount <= u128::MAX {
        Ok((balance + amount) as nat)
    } else {
        Err(AccountError::ArithmeticOverflow)
    }
}

/// What withdrawing `amount` from a balance yields: the decreased balance when
/// the account holds at least `amount`, and `InsufficientFunds` otherwise.
pub open spec fn withdraw_outcome(balance: nat, amount: nat) -> Result<nat, AccountError> {
    if amount <= balance {
        Ok((balance - amount) as nat)
    } else {
        Err(AccountError::InsufficientFunds)
    }
}

/// An account holding a single non-negative balance. The balance changes only
/// through [`Account::deposit`] and [`Account::withdraw`].
pub struct Account {
    balance: u128,
}

impl View for Account {
    type V = nat;

    closed spec fn view(&self) -> nat {
        self.balance as nat
    }
}

impl Account {
    /// Creates a new account with 0 balance.
    pub fn new() -> (account: Account)
        ensures
            account@ == 0,
    {
        Account { balance: 0 }
    }

    /// Returns the balance of the account. A pure read: the result is exactly
    /// the current balance, and the account is not touched.
    pub fn get_balance(&self) -> (balance: u128)
        ensures
            balance == self@,
    {
        self.balance
    }

    /// Adds `amount` to the balance. Fails with `ArithmeticOverflow`, leaving
    /// the balance unchanged, exactly when the sum would not fit in `u128`.
    pub fn deposit(&mut self, amount: u128) -> (result: Result<(), AccountError>)
        ensures
            deposit_outcome(old(self)@, amount as nat) matches Ok(updated) ==>
                result is Ok && final(self)@ == updated,
            deposit_outcome(old(self)@, amount as nat) matches Err(e) ==>
                result == Err::<(), AccountError>(e) && final(self)@ == old(self)@,
    {
        if amount <= u128::MAX - self.balance {
            self.balance = self.balance + amount;
            Ok(())
        } else {
            Err(AccountError::ArithmeticOverflow)
        }
    }

    /// Removes `amount` from the balance. Fails with `InsufficientFunds`,
    /// leaving the balance unchanged, exactly when `amount` exceeds the
    /// balance.
    pub fn withdraw(&mut self, amount: u128) -> (result: Result<(), AccountError>)
        ensures
            withdraw_outcome(old(self)@, amount as nat) matches Ok(updated) ==>
                result is Ok && final(self)@ == updated,
            withdraw_outcome(old(self)@, amount as nat) matches Err(e) ==>
                result == Err::<(), AccountError>(e) && final(self)@ == old(self)@,
    {
        if amount <= self.balance {
            self.balance = self.balance - amount;
            Ok(())
        } else {
            Err(AccountError::InsufficientFunds)
        }
    }
}

/// Law: deposits add up. Depositing `a` and then `b` into a fresh account,
/// when `a + b` fits in the balance's width, succeeds both times and leaves
/// the balance at exactly `a + b`.
pub proof fn lemma_deposit_additivity(a: u128, b: u128)
    requires
        a + b <= u128::MAX,
    ensures
        deposit_outcome(0, a as nat) == Ok::<nat, AccountError>(a as nat),
        deposit_outcome(a as nat, b as nat) == Ok::<nat, AccountError>((a + b) as nat),
{
}

/// Law: withdrawals subtract. Depositing `a` into a fresh account and then
/// withdrawing `b <= a` succeeds both times and leaves the balance at exactly
/// `a - b`.
pub proof fn lemma_withdraw_subtractivity(a: u128, b: u128)
    requires
        b <= a,
    ensures
        deposit_outcome(0, a as nat) == Ok::<nat, AccountError>(a as nat),
        withdraw_outcome(a as nat, b as nat) == Ok::<nat, AccountError>((a - b) as nat),
{
}

/// Law: reads are idempotent. Any two values that `get_balance` can return
/// for the same account, with no mutation in between, are equal, since each
/// is pinned to the account's balance.
pub proof fn lemma_get_balance_idempotent(account: &Account, first: u128, second: u128)
    requires
        first == account@,
        second == account@,
    ensures
        first == second,
{
}

} // verus!
