//! The records that come in and the records that go out.

use crate::account::Account;
use crate::amount::Amount;
use vstd::prelude::*;
use vstd::std_specs::convert::FromSpecImpl;
use vstd::string::StringSliceAdditionalSpecFns;

verus! {

/// The five commands that a record can carry.
#[derive(Clone, Copy, Debug, PartialEq, Eq)]
pub enum Command {
    Deposit,
    Withdrawal,
    Dispute,
    Resolve,
    Chargeback,
}

impl Command {
    /// The command that a name stands for. Names are matched letter for
    /// letter, and nothing stands in for a name that is not known.
    pub open spec fn spec_parse(name: Seq<char>) -> Option<Command> {
        if name == "deposit"@ {
            Some(Command::Deposit)
        } else if name == "withdrawal"@ {
            Some(Command::Withdrawal)
        } else if name == "dispute"@ {
            Some(Command::Dispute)
        } else if name == "resolve"@ {
            Some(Command::Resolve)
        } else if name == "chargeback"@ {
            Some(Command::Chargeback)
        } else {
            None
        }
    }

    /// Each of the five names stands for its own command: no two of the
    /// names are the same string.
    pub proof fn lemma_names()
        ensures
            Command::spec_parse("deposit"@) == Some(Command::Deposit),
            Command::spec_parse("withdrawal"@) == Some(Command::Withdrawal),
            Command::spec_parse("dispute"@) == Some(Command::Dispute),
            Command::spec_parse("resolve"@) == Some(Command::Resolve),
            Command::spec_parse("chargeback"@) == Some(Command::Chargeback),
    {
        reveal_strlit("deposit");
        reveal_strlit("withdrawal");
        reveal_strlit("dispute");
        reveal_strlit("resolve");
        reveal_strlit("chargeback");
        assert("deposit"@[0] == 'd' && "withdrawal"@[0] == 'w' && "resolve"@[0] == 'r'
            && "chargeback"@[0] == 'c');
        assert("dispute"@[0] == 'd' && "dispute"@[1] == 'i' && "deposit"@[1] == 'e');
    }

    /// The command that a name stands for, if it is one of the five.
    pub fn parse(name: &str) -> (r: Option<Command>)
        ensures
            r == Command::spec_parse(name@),
    {
        if str_eq(name, "deposit") {
            Some(Command::Deposit)
        } else if str_eq(name, "withdrawal") {
            Some(Command::Withdrawal)
        } else if str_eq(name, "dispute") {
            Some(Command::Dispute)
        } else if str_eq(name, "resolve") {
            Some(Command::Resolve)
        } else if str_eq(name, "chargeback") {
            Some(Command::Chargeback)
        } else {
            None
        }
    }
}

/// Whether two strings hold the same characters.
pub fn str_eq(a: &str, b: &str) -> (r: bool)
    ensures
        r == (a@ == b@),
{
    let x = a.as_bytes();
    let y = b.as_bytes();
    if x.len() != y.len() {
        return false;
    }
    let mut i: usize = 0;
    while i < x.len()
        invariant
            i <= x.len(),
            x.len() == y.len(),
            x@ == a.spec_bytes(),
            y@ == b.spec_bytes(),
            forall|j: int| 0 <= j < i ==> x@[j] == y@[j],
        decreases x.len() - i,
    {
        if x[i] != y[i] {
            return false;
        }
        i += 1;
    }
    proof {
        assert(x@ =~= y@);
        vstd::utf8::encode_utf8_decode_utf8(a@);
        vstd::utf8::encode_utf8_decode_utf8(b@);
    }
    true
}

/// A transaction record, as its source hands it over.
#[derive(Debug, PartialEq, Eq)]
pub struct Record {
    /// The name of the command.
    pub command: String,
    /// The client that the record is about.
    pub client: u16,
    /// The transaction that the record is about.
    pub tx: u32,
    /// The amount: there for a deposit and a withdrawal, absent otherwise.
    pub amount: Option<Amount>,
}

/// The model of a record.
pub struct RecordView {
    pub command: Seq<char>,
    pub client: u16,
    pub tx: u32,
    pub amount: Option<int>,
}

impl View for Record {
    type V = RecordView;

    open spec fn view(&self) -> RecordView {
        RecordView {
            command: self.command@,
            client: self.client,
            tx: self.tx,
            amount: match self.amount {
                Some(a) => Some(a@),
                None => None,
            },
        }
    }
}

/// What is written out of an account when the stream of records has ended.
#[derive(Clone, Copy, Debug, PartialEq, Eq)]
pub struct OutRecord {
    pub client: u16,
    pub available: Amount,
    pub held: Amount,
    pub total: Amount,
    pub locked: bool,
}

impl From<&Account> for OutRecord {
    fn from(value: &Account) -> (r: Self) {
        OutRecord {
            client: value.id,
            available: value.available,
            held: value.held,
            total: value.total,
            locked: value.locked,
        }
    }
}

impl FromSpecImpl<&Account> for OutRecord {
    open spec fn obeys_from_spec() -> bool {
        true
    }

    open spec fn from_spec(value: &Account) -> Self {
        OutRecord {
            client: value.id,
            available: value.available,
            held: value.held,
            total: value.total,
            locked: value.locked,
        }
    }
}

} // verus!
