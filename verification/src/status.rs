//! The states a batch can occupy, and the status record of one batch.

use crate::error::TransactionError;
use vstd::prelude::*;

verus! {

/// How far a batch has come on the ledger.
#[derive(Clone, Copy, Debug, PartialEq, Eq, Structural)]
pub enum CommitStatus {
    Committed,
    Pending,
    Invalid,
    Unknown,
}

impl CommitStatus {
    /// The name under which the state travels.
    pub open spec fn text(self) -> Seq<char> {
        match self {
            CommitStatus::Committed => "COMMITTED"@,
            CommitStatus::Pending => "PENDING"@,
            CommitStatus::Invalid => "INVALID"@,
            CommitStatus::Unknown => "UNKNOWN"@,
        }
    }

    /// No further change is expected of a batch in this state.
    pub open spec fn terminal(self) -> bool {
        self == CommitStatus::Committed || self == CommitStatus::Invalid
    }

    /// The name under which the state travels.
    pub fn as_str(&self) -> (name: &'static str)
        ensures
            name@ == self.text(),
    {
        match self {
            CommitStatus::Committed => "COMMITTED",
            CommitStatus::Pending => "PENDING",
            CommitStatus::Invalid => "INVALID",
            CommitStatus::Unknown => "UNKNOWN",
        }
    }

    /// Whether no further change is expected of a batch in this state.
    pub fn is_terminal(&self) -> (r: bool)
        ensures
            r == self.terminal(),
    {
        match self {
            CommitStatus::Committed | CommitStatus::Invalid => true,
            CommitStatus::Pending | CommitStatus::Unknown => false,
        }
    }

    /// Reads a state from its name; a text that names no state gives `None`.
    pub fn parse(name: &str) -> (state: Option<CommitStatus>)
        ensures
            match state {
                Some(s) => name@ == s.text(),
                None => forall|s: CommitStatus| name@ != #[trigger] s.text(),
            },
    {
        let given = String::from_str(name);
        if given == String::from_str("COMMITTED") {
            Some(CommitStatus::Committed)
        } else if given == String::from_str("PENDING") {
            Some(CommitStatus::Pending)
        } else if given == String::from_str("INVALID") {
            Some(CommitStatus::Invalid)
        } else if given == String::from_str("UNKNOWN") {
            Some(CommitStatus::Unknown)
        } else {
            None
        }
    }
}

/// No two states share a name, so a name read back gives the state it came
/// from.
pub proof fn names_are_distinct(a: CommitStatus, b: CommitStatus)
    requires
        a.text() == b.text(),
    ensures
        a == b,
{
    reveal_strlit("COMMITTED");
    reveal_strlit("PENDING");
    reveal_strlit("INVALID");
    reveal_strlit("UNKNOWN");
    assert("COMMITTED"@.len() == 9);
    assert("PENDING"@.len() == 7 && "PENDING"@[0] == 'P');
    assert("INVALID"@.len() == 7 && "INVALID"@[0] == 'I');
    assert("UNKNOWN"@.len() == 7 && "UNKNOWN"@[0] == 'U');
}

/// The status of one batch, as the ledger reports it.
#[derive(Debug, PartialEq, Eq)]
pub struct BatchStatus {
    pub id: String,
    pub status: CommitStatus,
}

/// A batch status as a mathematical value.
pub ghost struct BatchStatusView {
    pub id: Seq<char>,
    pub status: CommitStatus,
}

impl View for BatchStatus {
    type V = BatchStatusView;

    open spec fn view(&self) -> BatchStatusView {
        BatchStatusView { id: self.id@, status: self.status }
    }
}

impl DeepView for BatchStatus {
    type V = BatchStatusView;

    open spec fn deep_view(&self) -> BatchStatusView {
        self@
    }
}

impl Clone for BatchStatus {
    fn clone(&self) -> (copy: Self)
        ensures
            copy@ == self@,
    {
        BatchStatus { id: self.id.clone(), status: self.status }
    }
}

impl BatchStatus {
    /// Builds the record of one batch from the id and the state name that
    /// the ledger sent. A name that is none of the four states is a fault of
    /// the ledger's side and is reported with the name.
    pub fn from_wire(id: String, status: String) -> (result: Result<BatchStatus, TransactionError>)
        ensures
            match result {
                Ok(record) => record.id == id && status@ == record.status.text(),
                Err(e) => e == TransactionError::Internal(status) && forall|s: CommitStatus|
                    status@ != #[trigger] s.text(),
            },
    {
        match CommitStatus::parse(status.as_str()) {
            Some(state) => Ok(BatchStatus { id, status: state }),
            None => Err(TransactionError::Internal(status)),
        }
    }
}

/// Every batch of the list is committed.
pub open spec fn all_committed(list: Seq<BatchStatusView>) -> bool {
    forall|i: int| 0 <= i < list.len() ==> (#[trigger] list[i]).status == CommitStatus::Committed
}

} // verus!
