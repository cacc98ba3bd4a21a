//! What holds of the engine whatever the records are.
//!
//! Each law is stated over the model of the engine, which `Engine::process`
//! follows exactly, and is proved here once and for all.

use crate::account::AccountView;
use crate::deser::{Command, RecordView};
use crate::engine::{EngineError, EngineView};
use vstd::prelude::*;

verus! {

impl EngineView {
    /// The engine after a run of records, each applied to what the one
    /// before it left, accepted or not.
    pub open spec fn process_all(self, records: Seq<RecordView>) -> EngineView
        decreases records.len(),
    {
        if records.len() == 0 {
            self
        } else {
            self.process_all(records.drop_last()).process(records.last()).0
        }
    }

    /// No record breaks the invariant of the engine: after it every account
    /// has a total that is what is available and what is held together, and
    /// no balance is below zero.
    pub proof fn lemma_process_preserves_wf(self, record: RecordView)
        requires
            self.wf(),
        ensures
            self.process(record).0.wf(),
    {
    }

    /// No run of records breaks the invariant of the engine.
    pub proof fn lemma_process_all_preserves_wf(self, records: Seq<RecordView>)
        requires
            self.wf(),
        ensures
            self.process_all(records).wf(),
        decreases records.len(),
    {
        if records.len() > 0 {
            self.lemma_process_all_preserves_wf(records.drop_last());
        }
    }

    /// A record leaves every locked account as it is: its balances stay and
    /// it stays locked, whatever the record says and whether or not it is
    /// accepted.
    pub proof fn lemma_locked_accounts_stay(self, record: RecordView)
        ensures
            forall|c: u16| #[trigger]
                self.accounts.contains_key(c) && self.accounts[c].locked ==> {
                    &&& self.process(record).0.accounts.contains_key(c)
                    &&& self.process(record).0.accounts[c] == self.accounts[c]
                },
    {
    }

    /// Once an account is locked, no run of records changes its balances or
    /// unlocks it.
    pub proof fn lemma_locked_account_is_frozen(self, records: Seq<RecordView>, client: u16)
        requires
            self.accounts.contains_key(client),
            self.accounts[client].locked,
        ensures
            self.process_all(records).accounts.contains_key(client),
            self.process_all(records).accounts[client] == self.accounts[client],
        decreases records.len(),
    {
        if records.len() > 0 {
            self.lemma_locked_account_is_frozen(records.drop_last(), client);
        }
    }

    /// A record that is refused changes no balance, no deposit and no
    /// dispute. At most it leaves an empty account for its client, where the
    /// client had none.
    pub proof fn lemma_refused_record_changes_nothing(self, record: RecordView)
        requires
            self.process(record).1 is Err,
        ensures
            self.process(record).0.history == self.history,
            self.process(record).0.disputed == self.disputed,
            forall|c: u16| #[trigger]
                self.accounts.contains_key(c) ==> {
                    &&& self.process(record).0.accounts.contains_key(c)
                    &&& self.process(record).0.accounts[c] == self.accounts[c]
                },
            forall|c: u16| #[trigger]
                self.process(record).0.accounts.contains_key(c) && !self.accounts.contains_key(c)
                    ==> {
                    &&& c == record.client
                    &&& self.process(record).0.accounts[c] == AccountView::fresh(c)
                },
    {
    }

    /// A dispute, a resolve or a chargeback makes no account: a deposit that
    /// was recorded belongs to a client that has one.
    pub proof fn lemma_disputes_make_no_account(self, record: RecordView)
        requires
            self.wf(),
            Command::spec_parse(record.command) matches Some(command) && command
                != Command::Deposit && command != Command::Withdrawal,
        ensures
            self.process(record).0.accounts.dom() == self.accounts.dom(),
    {
    }

    /// Only a deposit that is accepted is recorded; nothing else touches the
    /// deposits that were recorded before.
    pub proof fn lemma_only_deposits_are_recorded(self, record: RecordView)
        ensures
            self.process(record).0.history == if Command::spec_parse(record.command) == Some(
                Command::Deposit,
            ) && self.process(record).1 is Ok {
                self.history.insert(record.tx, (record.client, record.amount->Some_0))
            } else {
                self.history
            },
    {
    }

    /// A chargeback that is accepted locks the account and ends the dispute.
    /// A dispute, a resolve or a chargeback of the same transaction that
    /// comes next, by whatever client, is refused and changes nothing.
    pub proof fn lemma_chargeback_is_final(self, chargeback: RecordView, next: RecordView)
        requires
            self.wf(),
            Command::spec_parse(chargeback.command) == Some(Command::Chargeback),
            self.process(chargeback).1 is Ok,
            Command::spec_parse(next.command) matches Some(command) && command != Command::Deposit
                && command != Command::Withdrawal,
            next.tx == chargeback.tx,
        ensures
            self.process(chargeback).0.account(chargeback.client).locked,
            !self.process(chargeback).0.disputed.contains(chargeback.tx),
            self.process(chargeback).0.process(next).1 is Err,
            self.process(chargeback).0.process(next).0 == self.process(chargeback).0,
    {
    }

    /// Where a dispute was accepted, a second dispute of the same
    /// transaction, by whatever client, is refused as already disputed and
    /// changes nothing: the balances are those that the one dispute left.
    pub proof fn lemma_second_dispute_is_refused(self, first: RecordView, second: RecordView)
        requires
            Command::spec_parse(first.command) == Some(Command::Dispute),
            Command::spec_parse(second.command) == Some(Command::Dispute),
            first.tx == second.tx,
            self.process(first).1 is Ok,
        ensures
            self.process(first).0.process(second) == (
                self.process(first).0,
                Err::<(), EngineError>(EngineError::AlreadyDisputed),
            ),
    {
    }

    /// Where a dispute was accepted, the resolve of the same transaction by
    /// the same client is accepted too, and the engine is back where it was
    /// before the dispute: the same available and held funds in every
    /// account, the same deposits, the same disputes. The total of the
    /// client's account is the same before, between and after.
    pub proof fn lemma_dispute_then_resolve(self, dispute: RecordView, resolve: RecordView)
        requires
            self.wf(),
            Command::spec_parse(dispute.command) == Some(Command::Dispute),
            Command::spec_parse(resolve.command) == Some(Command::Resolve),
            dispute.client == resolve.client,
            dispute.tx == resolve.tx,
            self.process(dispute).1 is Ok,
        ensures
            self.process(dispute).0.process(resolve) == (self, Ok::<(), EngineError>(())),
            self.process(dispute).0.account(dispute.client).total == self.account(
                dispute.client,
            ).total,
    {
    }

    /// A deposit that was accepted can be disputed by its client, unless its
    /// transaction id was under dispute already. The resolve that follows
    /// is accepted, and gives back the available and held funds that the
    /// deposit left; the total is the same after the deposit, after the
    /// dispute and after the resolve.
    pub proof fn lemma_deposit_dispute_resolve(
        self,
        deposit: RecordView,
        dispute: RecordView,
        resolve: RecordView,
    )
        requires
            self.wf(),
            Command::spec_parse(deposit.command) == Some(Command::Deposit),
            Command::spec_parse(dispute.command) == Some(Command::Dispute),
            Command::spec_parse(resolve.command) == Some(Command::Resolve),
            deposit.client == dispute.client == resolve.client,
            deposit.tx == dispute.tx == resolve.tx,
            self.process(deposit).1 is Ok,
            !self.disputed.contains(deposit.tx),
        ensures
            ({
                let deposited = self.process(deposit).0;
                let disputed = deposited.process(dispute).0;
                let resolved = disputed.process(resolve).0;
                let client = deposit.client;
                &&& deposited.process(dispute).1 is Ok
                &&& disputed.process(resolve).1 is Ok
                &&& resolved == deposited
                &&& disputed.account(client).total == deposited.account(client).total
                &&& disputed.account(client).held == deposited.account(client).held
                    + deposit.amount->Some_0
                &&& disputed.account(client).available == deposited.account(client).available
                    - deposit.amount->Some_0
            }),
    {
    }
}

} // verus!
