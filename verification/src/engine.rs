//! The transaction engine: every account, the deposits that were recorded,
//! and the transactions that are under dispute.

use crate::account::{Account, AccountError, AccountView, Operation};
use crate::amount::{Amount, MAX_UNITS};
use crate::deser::{Command, Record, RecordView};
use std::collections::{HashMap, HashSet};
use vstd::prelude::*;
use vstd::std_specs::convert::FromSpecImpl;

verus! {

broadcast use vstd::std_specs::hash::group_hash_axioms;

/// Why the engine refused a record.
#[derive(Clone, Copy, Debug, PartialEq, Eq)]
pub enum EngineError {
    /// The account is locked: a chargeback was applied to it.
    AccountLocked,
    /// The amount is below zero.
    InvalidAmount,
    /// A balance would leave the range of an amount.
    Overflow,
    /// The amount is more than the available funds.
    InsufficientFunds,
    /// The amount is more than the held funds.
    InsufficientHeldFunds,
    /// A deposit or a withdrawal came without an amount.
    MissingAmount,
    /// The transaction is under dispute already.
    AlreadyDisputed,
    /// The transaction is not under dispute.
    NotDisputed,
    /// No deposit with this transaction id was recorded.
    TransactionNotFound,
    /// The transaction was recorded for another client.
    ClientMismatch,
    /// The command is none of the five.
    UnknownCommand,
}

impl From<AccountError> for EngineError {
    fn from(e: AccountError) -> (r: Self) {
        match e {
            AccountError::AccountLocked => EngineError::AccountLocked,
            AccountError::InvalidAmount => EngineError::InvalidAmount,
            AccountError::Overflow => EngineError::Overflow,
            AccountError::InsufficientFunds => EngineError::InsufficientFunds,
            AccountError::InsufficientHeldFunds => EngineError::InsufficientHeldFunds,
        }
    }
}

impl FromSpecImpl<AccountError> for EngineError {
    open spec fn obeys_from_spec() -> bool {
        true
    }

    open spec fn from_spec(e: AccountError) -> Self {
        EngineError::of_account(e)
    }
}

impl EngineError {
    /// The refusal of an account, as the engine reports it.
    pub open spec fn of_account(e: AccountError) -> EngineError {
        match e {
            AccountError::AccountLocked => EngineError::AccountLocked,
            AccountError::InvalidAmount => EngineError::InvalidAmount,
            AccountError::Overflow => EngineError::Overflow,
            AccountError::InsufficientFunds => EngineError::InsufficientFunds,
            AccountError::InsufficientHeldFunds => EngineError::InsufficientHeldFunds,
        }
    }

    /// The text of the error.
    pub open spec fn spec_message(self) -> Seq<char> {
        match self {
            EngineError::AccountLocked => AccountError::AccountLocked.spec_message(),
            EngineError::InvalidAmount => AccountError::InvalidAmount.spec_message(),
            EngineError::Overflow => AccountError::Overflow.spec_message(),
            EngineError::InsufficientFunds => AccountError::InsufficientFunds.spec_message(),
            EngineError::InsufficientHeldFunds => AccountError::InsufficientHeldFunds.spec_message(),
            EngineError::MissingAmount => "Missing amount"@,
            EngineError::AlreadyDisputed => "Transaction already under dispute"@,
            EngineError::NotDisputed => "Transaction not under dispute"@,
            EngineError::TransactionNotFound => "Transaction not found"@,
            EngineError::ClientMismatch => "Transaction does not belong to client"@,
            EngineError::UnknownCommand => "Unknown command"@,
        }
    }

    /// The text of the error.
    pub fn message(&self) -> (r: &'static str)
        ensures
            r@ == self.spec_message(),
    {
        match self {
            EngineError::AccountLocked => AccountError::AccountLocked.message(),
            EngineError::InvalidAmount => AccountError::InvalidAmount.message(),
            EngineError::Overflow => AccountError::Overflow.message(),
            EngineError::InsufficientFunds => AccountError::InsufficientFunds.message(),
            EngineError::InsufficientHeldFunds => AccountError::InsufficientHeldFunds.message(),
            EngineError::MissingAmount => "Missing amount",
            EngineError::AlreadyDisputed => "Transaction already under dispute",
            EngineError::NotDisputed => "Transaction not under dispute",
            EngineError::TransactionNotFound => "Transaction not found",
            EngineError::ClientMismatch => "Transaction does not belong to client",
            EngineError::UnknownCommand => "Unknown command",
        }
    }
}

/// The model of the engine.
#[verifier::ext_equal]
pub struct EngineView {
    /// The account of every client that was referred to.
    pub accounts: Map<u16, AccountView>,
    /// The deposits that were applied: for each transaction id the client
    /// and the amount, in ten-thousandths.
    pub history: Map<u32, (u16, int)>,
    /// The transactions that are under dispute.
    pub disputed: Set<u32>,
}

impl EngineView {
    /// The engine before any record.
    pub open spec fn empty() -> EngineView {
        EngineView { accounts: Map::empty(), history: Map::empty(), disputed: Set::empty() }
    }

    /// The account of a client: the one that is kept, or a fresh one.
    pub open spec fn account(self, client: u16) -> AccountView {
        if self.accounts.contains_key(client) {
            self.accounts[client]
        } else {
            AccountView::fresh(client)
        }
    }

    /// The invariant of the engine: every account is kept under its own
    /// client and is well-formed, every recorded deposit belongs to a client
    /// with an account and has an amount that is not negative, and only
    /// recorded deposits are under dispute.
    pub open spec fn wf(self) -> bool {
        &&& forall|c: u16| #[trigger]
            self.accounts.contains_key(c) ==> self.accounts[c].wf() && self.accounts[c].id == c
        &&& forall|t: u32| #[trigger]
            self.history.contains_key(t) ==> {
                &&& self.accounts.contains_key(self.history[t].0)
                &&& 0 <= self.history[t].1 <= MAX_UNITS
            }
        &&& forall|t: u32| #[trigger] self.disputed.contains(t) ==> self.history.contains_key(t)
    }

    /// The engine with an operation applied to the account of a client. The
    /// account is kept from then on, also where the operation was refused
    /// and the client had none before.
    pub open spec fn apply(self, client: u16, operation: Operation, amount: int) -> (
        EngineView,
        Result<(), EngineError>,
    ) {
        match self.account(client).execute(operation, amount) {
            Ok(next) => (EngineView { accounts: self.accounts.insert(client, next), ..self }, Ok(())),
            Err(e) => (
                EngineView { accounts: self.accounts.insert(client, self.account(client)), ..self },
                Err(EngineError::of_account(e)),
            ),
        }
    }

    /// The amount of the deposit that a dispute, a resolve or a chargeback
    /// refers to, where that deposit was recorded for this client.
    pub open spec fn disputable(self, client: u16, tx: u32) -> Result<int, EngineError> {
        if !self.history.contains_key(tx) {
            Err(EngineError::TransactionNotFound)
        } else if self.history[tx].0 != client {
            Err(EngineError::ClientMismatch)
        } else {
            Ok(self.history[tx].1)
        }
    }

    /// A deposit or a withdrawal.
    pub open spec fn transfer(self, operation: Operation, record: RecordView) -> (
        EngineView,
        Result<(), EngineError>,
    ) {
        match record.amount {
            None => (self, Err(EngineError::MissingAmount)),
            Some(amount) => {
                let (next, result) = self.apply(record.client, operation, amount);
                if result is Ok && operation == Operation::Deposit {
                    (
                        EngineView {
                            history: next.history.insert(record.tx, (record.client, amount)),
                            ..next
                        },
                        result,
                    )
                } else {
                    (next, result)
                }
            },
        }
    }

    /// An accepted dispute puts the transaction under dispute.
    pub open spec fn open_dispute(self, record: RecordView) -> (
        EngineView,
        Result<(), EngineError>,
    ) {
        if self.disputed.contains(record.tx) {
            (self, Err(EngineError::AlreadyDisputed))
        } else {
            match self.disputable(record.client, record.tx) {
                Err(e) => (self, Err(e)),
                Ok(amount) => {
                    let (next, result) = self.apply(record.client, Operation::Dispute, amount);
                    if result is Ok {
                        (EngineView { disputed: next.disputed.insert(record.tx), ..next }, result)
                    } else {
                        (next, result)
                    }
                },
            }
        }
    }

    /// An accepted resolve or chargeback ends the dispute of the transaction.
    pub open spec fn close_dispute(self, operation: Operation, record: RecordView) -> (
        EngineView,
        Result<(), EngineError>,
    ) {
        if !self.disputed.contains(record.tx) {
            (self, Err(EngineError::NotDisputed))
        } else {
            match self.disputable(record.client, record.tx) {
                Err(e) => (self, Err(e)),
                Ok(amount) => {
                    let (next, result) = self.apply(record.client, operation, amount);
                    if result is Ok {
                        (EngineView { disputed: next.disputed.remove(record.tx), ..next }, result)
                    } else {
                        (next, result)
                    }
                },
            }
        }
    }

    /// What a record does to the engine: the engine that follows, and whether
    /// the record was accepted.
    pub open spec fn process(self, record: RecordView) -> (EngineView, Result<(), EngineError>) {
        match Command::spec_parse(record.command) {
            None => (self, Err(EngineError::UnknownCommand)),
            Some(Command::Deposit) => self.transfer(Operation::Deposit, record),
            Some(Command::Withdrawal) => self.transfer(Operation::Withdraw, record),
            Some(Command::Dispute) => self.open_dispute(record),
            Some(Command::Resolve) => self.close_dispute(Operation::Resolve, record),
            Some(Command::Chargeback) => self.close_dispute(Operation::Chargeback, record),
        }
    }
}

/// The models of the accounts in a map.
pub open spec fn accounts_model(accounts: Map<u16, Account>) -> Map<u16, AccountView> {
    Map::new(|c: u16| accounts.contains_key(c), |c: u16| accounts[c]@)
}

/// The models of the deposits in a map.
pub open spec fn history_model(history: Map<u32, (u16, Amount)>) -> Map<u32, (u16, int)> {
    Map::new(|t: u32| history.contains_key(t), |t: u32| (history[t].0, history[t].1@))
}

/// The transaction engine.
pub struct Engine {
    accounts: HashMap<u16, Account>,
    tx_record: HashMap<u32, (u16, Amount)>,
    dispute_record: HashSet<u32>,
}

impl View for Engine {
    type V = EngineView;

    closed spec fn view(&self) -> EngineView {
        EngineView {
            accounts: accounts_model(self.accounts@),
            history: history_model(self.tx_record@),
            disputed: self.dispute_record@,
        }
    }
}

impl Engine {
    /// The invariant of the engine, over its model.
    pub open spec fn wf(&self) -> bool {
        self@.wf()
    }

    /// An engine that has seen no record.
    pub fn new() -> (r: Self)
        ensures
            r@ == EngineView::empty(),
            r.wf(),
    {
        Engine {
            accounts: HashMap::new(),
            tx_record: HashMap::new(),
            dispute_record: HashSet::new(),
        }
    }

    /// Applies one record: the engine follows its model, and the result says
    /// whether the record was accepted.
    pub fn process(&mut self, record: &Record) -> (r: Result<(), EngineError>)
        requires
            old(self).wf(),
        ensures
            (final(self)@, r) == old(self)@.process(record@),
            final(self).wf(),
            forall|c: u16| #[trigger]
                old(self)@.accounts.contains_key(c) && old(self)@.accounts[c].locked ==> {
                    &&& final(self)@.accounts.contains_key(c)
                    &&& final(self)@.accounts[c] == old(self)@.accounts[c]
                },
    {
        match Command::parse(record.command.as_str()) {
            Some(Command::Deposit) => {
                let amount = match record.amount {
                    Some(amount) => amount,
                    None => {
                        return Err(EngineError::MissingAmount);
                    },
                };
                match self.apply(record.client, Operation::Deposit, amount) {
                    Ok(()) => {},
                    Err(e) => {
                        return Err(e);
                    },
                }
                self.register_transaction(record.tx, record.client, amount);
            },
            Some(Command::Withdrawal) => {
                let amount = match record.amount {
                    Some(amount) => amount,
                    None => {
                        return Err(EngineError::MissingAmount);
                    },
                };
                match self.apply(record.client, Operation::Withdraw, amount) {
                    Ok(()) => {},
                    Err(e) => {
                        return Err(e);
                    },
                }
                // Withdrawals are not recorded: nothing disputes one.
            },
            Some(Command::Dispute) => {
                if self.dispute_record.contains(&record.tx) {
                    return Err(EngineError::AlreadyDisputed);
                }
                let amount = match self.disputable(record.client, record.tx) {
                    Ok(amount) => amount,
                    Err(e) => {
                        return Err(e);
                    },
                };
                match self.apply(record.client, Operation::Dispute, amount) {
                    Ok(()) => {},
                    Err(e) => {
                        return Err(e);
                    },
                }
                self.dispute_record.insert(record.tx);
            },
            Some(Command::Resolve) => {
                if !self.dispute_record.contains(&record.tx) {
                    return Err(EngineError::NotDisputed);
                }
                let amount = match self.disputable(record.client, record.tx) {
                    Ok(amount) => amount,
                    Err(e) => {
                        return Err(e);
                    },
                };
                match self.apply(record.client, Operation::Resolve, amount) {
                    Ok(()) => {},
                    Err(e) => {
                        return Err(e);
                    },
                }
                self.dispute_record.remove(&record.tx);
            },
            Some(Command::Chargeback) => {
                if !self.dispute_record.contains(&record.tx) {
                    return Err(EngineError::NotDisputed);
                }
                let amount = match self.disputable(record.client, record.tx) {
                    Ok(amount) => amount,
                    Err(e) => {
                        return Err(e);
                    },
                };
                match self.apply(record.client, Operation::Chargeback, amount) {
                    Ok(()) => {},
                    Err(e) => {
                        return Err(e);
                    },
                }
                self.dispute_record.remove(&record.tx);
            },
            None => {
                return Err(EngineError::UnknownCommand);
            },
        }
        Ok(())
    }

    /// The account of a client. One is made, with no money in it, where the
    /// client has none.
    fn get_account(&mut self, account_id: u16) -> (account: &mut Account)
        requires
            old(self).wf(),
        ensures
            account@ == old(self)@.account(account_id),
            account.wf(),
            account.id == account_id,
            final(self).accounts@ == old(self).accounts@.insert(account_id, *final(account)),
            final(self).tx_record == old(self).tx_record,
            final(self).dispute_record == old(self).dispute_record,
    {
        proof {
            // The account that is kept for the client is the one of the model.
            if self.accounts@.contains_key(account_id) {
                assert(self@.accounts[account_id] == self.accounts@[account_id]@);
            }
        }
        self.accounts.entry(account_id).or_insert(Account::new(account_id))
    }

    /// Applies an operation to the account of a client.
    fn apply(&mut self, client: u16, operation: Operation, amount: Amount) -> (r: Result<
        (),
        EngineError,
    >)
        requires
            old(self).wf(),
        ensures
            (final(self)@, r) == old(self)@.apply(client, operation, amount@),
            final(self).wf(),
    {
        let account = self.get_account(client);
        let result = account.execute(operation, amount);
        assert(self@.accounts =~= old(self)@.apply(client, operation, amount@).0.accounts);
        match result {
            Ok(()) => Ok(()),
            Err(e) => Err(EngineError::from(e)),
        }
    }

    /// The amount of the deposit that `tx` names, where it was recorded for
    /// this client.
    fn disputable(&self, client: u16, tx: u32) -> (r: Result<Amount, EngineError>)
        requires
            self.wf(),
        ensures
            match self@.disputable(client, tx) {
                Ok(amount) => r matches Ok(a) && a@ == amount,
                Err(e) => r == Err::<Amount, EngineError>(e),
            },
    {
        match self.tx_record.get(&tx) {
            None => Err(EngineError::TransactionNotFound),
            Some(entry) => {
                let (client_id, amount) = *entry;
                if client_id != client {
                    Err(EngineError::ClientMismatch)
                } else {
                    Ok(amount)
                }
            },
        }
    }

    /// Records a deposit, in place of any that was recorded under the same
    /// transaction id.
    fn register_transaction(&mut self, tx: u32, client_id: u16, amount: Amount)
        requires
            old(self).wf(),
            old(self)@.accounts.contains_key(client_id),
            amount@ >= 0,
        ensures
            final(self)@ == (EngineView {
                history: old(self)@.history.insert(tx, (client_id, amount@)),
                ..old(self)@
            }),
            final(self).wf(),
    {
        proof {
            use_type_invariant(amount);
        }
        self.tx_record.insert(tx, (client_id, amount));
        assert(self@.history =~= old(self)@.history.insert(tx, (client_id, amount@)));
    }

    /// Every account that the engine keeps, by client.
    pub fn get_accounts(&self) -> (r: &HashMap<u16, Account>)
        ensures
            accounts_model(r@) == self@.accounts,
            self.wf() ==> forall|c: u16| #[trigger] r@.contains_key(c) ==> r@[c].wf() && r@[c].id == c,
    {
        assert forall|c: u16| #[trigger] self.accounts@.contains_key(c) implies self@.accounts.contains_key(
            c,
        ) && self@.accounts[c] == self.accounts@[c]@ by {}
        &self.accounts
    }

    /// How many deposits are recorded.
    pub fn recorded_transactions(&self) -> (r: usize)
        ensures
            r == self@.history.len(),
    {
        assert(self@.history.dom() =~= self.tx_record@.dom());
        self.tx_record.len()
    }

    /// How many transactions are under dispute.
    pub fn open_disputes(&self) -> (r: usize)
        ensures
            r == self@.disputed.len(),
    {
        self.dispute_record.len()
    }
}

} // verus!
