//! The ledger of one client: balances, the lock, and the five operations
//! that change them.

use crate::amount::{in_range, Amount, MAX_UNITS};
use vstd::prelude::*;

verus! {

/// What can be done to an account.
#[derive(Clone, Copy, Debug, PartialEq, Eq)]
pub enum Operation {
    Deposit,
    Withdraw,
    Dispute,
    Resolve,
    Chargeback,
}

/// Why an account refused an operation.
#[derive(Clone, Copy, Debug, PartialEq, Eq)]
pub enum AccountError {
    /// The account is locked: a chargeback was applied to it.
    AccountLocked,
    /// The amount is below zero.
    InvalidAmount,
    /// A balance would leave the range of an amount.
    Overflow,
    /// The amount is more than the available funds.
    InsufficientFunds,
    /// The amount is more than the held funds.
    InsufficientHeldFunds,
}

impl AccountError {
    /// The text of the error.
    pub open spec fn spec_message(self) -> Seq<char> {
        match self {
            AccountError::AccountLocked => "Account is locked"@,
            AccountError::InvalidAmount => "Amount must be non-negative"@,
            AccountError::Overflow => "Overflow"@,
            AccountError::InsufficientFunds => "Insufficient funds"@,
            AccountError::InsufficientHeldFunds => "Insufficient held funds"@,
        }
    }

    /// The text of the error.
    pub fn message(&self) -> (r: &'static str)
        ensures
            r@ == self.spec_message(),
    {
        match self {
            AccountError::AccountLocked => "Account is locked",
            AccountError::InvalidAmount => "Amount must be non-negative",
            AccountError::Overflow => "Overflow",
            AccountError::InsufficientFunds => "Insufficient funds",
            AccountError::InsufficientHeldFunds => "Insufficient held funds",
        }
    }
}

/// The model of an account: its balances as numbers of ten-thousandths.
pub struct AccountView {
    pub id: u16,
    pub locked: bool,
    pub total: int,
    pub available: int,
    pub held: int,
}

impl AccountView {
    /// The account of a client that has not been seen before.
    pub open spec fn fresh(id: u16) -> AccountView {
        AccountView { id, locked: false, total: 0, available: 0, held: 0 }
    }

    /// The invariant of an account: no balance is below zero, the total is
    /// what is available and what is held together, and it is in range.
    pub open spec fn wf(self) -> bool {
        &&& 0 <= self.available
        &&& 0 <= self.held
        &&& self.total == self.available + self.held
        &&& self.total <= MAX_UNITS
    }

    /// Adds `amount` to the total and to the available funds, unless one of
    /// them would leave the range of an amount.
    pub open spec fn deposit(self, amount: int) -> Result<AccountView, AccountError> {
        if !in_range(self.total + amount) || !in_range(self.available + amount) {
            Err(AccountError::Overflow)
        } else {
            Ok(
                AccountView {
                    total: self.total + amount,
                    available: self.available + amount,
                    ..self
                },
            )
        }
    }

    /// Takes `amount` from the total and from the available funds, unless
    /// less than that is available.
    pub open spec fn withdraw(self, amount: int) -> Result<AccountView, AccountError> {
        if amount > self.available {
            Err(AccountError::InsufficientFunds)
        } else {
            Ok(
                AccountView {
                    total: self.total - amount,
                    available: self.available - amount,
                    ..self
                },
            )
        }
    }

    /// Moves `amount` from the available funds to the held funds, unless
    /// less than that is available.
    pub open spec fn dispute(self, amount: int) -> Result<AccountView, AccountError> {
        if amount > self.available {
            Err(AccountError::InsufficientFunds)
        } else {
            Ok(
                AccountView {
                    held: self.held + amount,
                    available: self.available - amount,
                    ..self
                },
            )
        }
    }

    /// Moves `amount` from the held funds back to the available funds,
    /// unless less than that is held.
    pub open spec fn resolve(self, amount: int) -> Result<AccountView, AccountError> {
        if amount > self.held {
            Err(AccountError::InsufficientHeldFunds)
        } else {
            Ok(
                AccountView {
                    available: self.available + amount,
                    held: self.held - amount,
                    ..self
                },
            )
        }
    }

    /// Takes `amount` from the total and from the held funds and locks the
    /// account, unless less than that is held.
    pub open spec fn chargeback(self, amount: int) -> Result<AccountView, AccountError> {
        if amount > self.held {
            Err(AccountError::InsufficientHeldFunds)
        } else {
            Ok(
                AccountView {
                    total: self.total - amount,
                    held: self.held - amount,
                    locked: true,
                    ..self
                },
            )
        }
    }

    /// What an operation does to an account: the account that follows, or
    /// the reason why the account stays as it is.
    pub open spec fn execute(self, operation: Operation, amount: int) -> Result<
        AccountView,
        AccountError,
    > {
        if self.locked {
            Err(AccountError::AccountLocked)
        } else if amount < 0 {
            Err(AccountError::InvalidAmount)
        } else {
            match operation {
                Operation::Deposit => self.deposit(amount),
                Operation::Withdraw => self.withdraw(amount),
                Operation::Dispute => self.dispute(amount),
                Operation::Resolve => self.resolve(amount),
                Operation::Chargeback => self.chargeback(amount),
            }
        }
    }

    /// No operation breaks the invariant of an account, and none changes
    /// whose account it is.
    pub proof fn lemma_execute_preserves_wf(self, operation: Operation, amount: int)
        requires
            self.wf(),
        ensures
            self.execute(operation, amount) matches Ok(next) ==> next.wf() && next.id == self.id,
    {
    }

    /// A locked account refuses every operation.
    pub proof fn lemma_locked_refuses(self, operation: Operation, amount: int)
        requires
            self.locked,
        ensures
            self.execute(operation, amount) == Err::<AccountView, AccountError>(
                AccountError::AccountLocked,
            ),
    {
    }

    /// Only a chargeback locks an account, and nothing unlocks one.
    pub proof fn lemma_lock_is_set_by_chargeback_alone(self, operation: Operation, amount: int)
        ensures
            self.execute(operation, amount) matches Ok(next) ==> (next.locked <==> operation
                == Operation::Chargeback),
    {
    }

    /// A dispute that is accepted and then resolved leaves the account as
    /// it was, and the total is the same throughout.
    pub proof fn lemma_dispute_then_resolve(self, amount: int)
        requires
            self.wf(),
            self.execute(Operation::Dispute, amount) is Ok,
        ensures
            ({
                let disputed = self.execute(Operation::Dispute, amount)->Ok_0;
                &&& disputed.total == self.total
                &&& disputed.execute(Operation::Resolve, amount) == Ok::<AccountView, AccountError>(
                    self,
                )
            }),
    {
    }
}

/// The account of one client.
#[derive(Clone, Copy, Debug, PartialEq, Eq)]
pub struct Account {
    pub id: u16,
    pub locked: bool,
    pub total: Amount,
    pub available: Amount,
    pub held: Amount,
}

impl View for Account {
    type V = AccountView;

    open spec fn view(&self) -> AccountView {
        AccountView {
            id: self.id,
            locked: self.locked,
            total: self.total@,
            available: self.available@,
            held: self.held@,
        }
    }
}

impl Account {
    /// The invariant of an account, over its model.
    pub open spec fn wf(&self) -> bool {
        self@.wf()
    }

    /// Two accounts with the same model are equal.
    pub proof fn lemma_view_injective(a: Account, b: Account)
        ensures
            (a@ == b@) == (a == b),
    {
        Amount::lemma_view_injective(a.total, b.total);
        Amount::lemma_view_injective(a.available, b.available);
        Amount::lemma_view_injective(a.held, b.held);
    }

    /// The account of a client that has not been seen before: unlocked, with
    /// no money in it.
    pub fn new(id: u16) -> (r: Self)
        ensures
            r@ == AccountView::fresh(id),
            r.wf(),
    {
        Account {
            id,
            locked: false,
            total: Amount::zero(),
            available: Amount::zero(),
            held: Amount::zero(),
        }
    }

    /// Applies an operation to the account, or refuses it and leaves the
    /// account as it is.
    ///
    /// A locked account refuses every operation, and an amount below zero is
    /// refused for every operation.
    pub fn execute(&mut self, operation: Operation, amount: Amount) -> (r: Result<(), AccountError>)
        requires
            old(self).wf(),
        ensures
            match old(self)@.execute(operation, amount@) {
                Ok(next) => r is Ok && final(self)@ == next,
                Err(e) => r == Err::<(), AccountError>(e) && *final(self) == *old(self),
            },
            final(self).wf(),
            final(self).id == old(self).id,
    {
        if self.locked {
            return Err(AccountError::AccountLocked);
        }
        if amount.is_sign_negative() {
            return Err(AccountError::InvalidAmount);
        }
        match operation {
            Operation::Deposit => self.deposit(amount),
            Operation::Withdraw => self.withdraw(amount),
            Operation::Dispute => self.dispute(amount),
            Operation::Resolve => self.resolve(amount),
            Operation::Chargeback => self.chargeback(amount),
        }
    }

    /// Adds `amount` to the client's balance: the total and the available
    /// funds grow by it. Refused where a balance would overflow.
    ///
    /// The lock is not looked at here: that is for `execute`.
    pub fn deposit(&mut self, amount: Amount) -> (r: Result<(), AccountError>)
        requires
            old(self).wf(),
            amount@ >= 0,
        ensures
            match old(self)@.deposit(amount@) {
                Ok(next) => r is Ok && final(self)@ == next,
                Err(e) => r == Err::<(), AccountError>(e) && *final(self) == *old(self),
            },
            final(self).wf(),
    {
        let total = match self.total.checked_add(amount) {
            Some(sum) => sum,
            None => {
                return Err(AccountError::Overflow);
            },
        };
        let available = match self.available.checked_add(amount) {
            Some(sum) => sum,
            None => {
                return Err(AccountError::Overflow);
            },
        };
        self.total = total;
        self.available = available;
        Ok(())
    }

    /// Takes `amount` from the client's balance: the total and the available
    /// funds shrink by it. Refused where less than `amount` is available.
    ///
    /// The lock is not looked at here: that is for `execute`.
    pub fn withdraw(&mut self, amount: Amount) -> (r: Result<(), AccountError>)
        requires
            old(self).wf(),
            amount@ >= 0,
        ensures
            match old(self)@.withdraw(amount@) {
                Ok(next) => r is Ok && final(self)@ == next,
                Err(e) => r == Err::<(), AccountError>(e) && *final(self) == *old(self),
            },
            final(self).wf(),
    {
        if amount.is_greater_than(&self.available) {
            return Err(AccountError::InsufficientFunds);
        }
        self.total = self.total.minus(amount);
        self.available = self.available.minus(amount);
        Ok(())
    }

    /// Holds `amount` of the available funds: the held funds grow by it, the
    /// available funds shrink by it, and the total stays. Refused where less
    /// than `amount` is available.
    ///
    /// The lock is not looked at here: that is for `execute`.
    pub fn dispute(&mut self, amount: Amount) -> (r: Result<(), AccountError>)
        requires
            old(self).wf(),
            amount@ >= 0,
        ensures
            match old(self)@.dispute(amount@) {
                Ok(next) => r is Ok && final(self)@ == next,
                Err(e) => r == Err::<(), AccountError>(e) && *final(self) == *old(self),
            },
            final(self).wf(),
    {
        if amount.is_greater_than(&self.available) {
            return Err(AccountError::InsufficientFunds);
        }
        self.held = self.held.plus(amount);
        self.available = self.available.minus(amount);
        Ok(())
    }

    /// Releases `amount` of the held funds: the available funds grow by it,
    /// the held funds shrink by it, and the total stays. Refused where less
    /// than `amount` is held.
    ///
    /// The lock is not looked at here: that is for `execute`.
    pub fn resolve(&mut self, amount: Amount) -> (r: Result<(), AccountError>)
        requires
            old(self).wf(),
            amount@ >= 0,
        ensures
            match old(self)@.resolve(amount@) {
                Ok(next) => r is Ok && final(self)@ == next,
                Err(e) => r == Err::<(), AccountError>(e) && *final(self) == *old(self),
            },
            final(self).wf(),
    {
        if amount.is_greater_than(&self.held) {
            return Err(AccountError::InsufficientHeldFunds);
        }
        self.available = self.available.plus(amount);
        self.held = self.held.minus(amount);
        Ok(())
    }

    /// Takes `amount` of the held funds away and locks the account: the
    /// total and the held funds shrink by it. Refused where less than
    /// `amount` is held.
    ///
    /// The lock is not looked at here: that is for `execute`.
    pub fn chargeback(&mut self, amount: Amount) -> (r: Result<(), AccountError>)
        requires
            old(self).wf(),
            amount@ >= 0,
        ensures
            match old(self)@.chargeback(amount@) {
                Ok(next) => r is Ok && final(self)@ == next,
                Err(e) => r == Err::<(), AccountError>(e) && *final(self) == *old(self),
            },
            final(self).wf(),
    {
        if amount.is_greater_than(&self.held) {
            return Err(AccountError::InsufficientHeldFunds);
        }
        self.total = self.total.minus(amount);
        self.held = self.held.minus(amount);
        self.locked = true;
        Ok(())
    }
}

} // verus!
