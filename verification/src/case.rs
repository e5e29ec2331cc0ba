//! The support case record and the errors of the operations on it.

use vstd::prelude::*;

verus! {

/// Why an operation on support cases did not complete.
#[derive(Clone, Copy, Debug, PartialEq, Eq, Structural)]
pub enum CaseError {
    /// A record with the same id is already stored.
    DuplicateId,
    /// No record is stored under the id.
    NotFound,
    /// The instant cannot be written as a calendar date and time.
    TimeOutOfRange,
    /// The stored creation time is not a readable timestamp.
    UnreadableTimestamp,
}

/// The mathematical value of a [`Case`].
pub struct CaseView {
    pub id: Seq<char>,
    pub owner_id: u64,
    pub thread_id: u64,
    pub created_at: Seq<char>,
}

/// A tracked support interaction, anchored to one discussion thread.
#[derive(Clone, Debug, PartialEq, Eq)]
pub struct Case {
    /// Short token that keys the record and names the thread.
    pub id: String,
    /// The user whose message opened the case.
    pub owner_id: u64,
    /// The thread that hosts the case.
    pub thread_id: u64,
    /// Creation time as text: UTC, millisecond precision, `Z` designator.
    pub created_at: String,
}

impl View for Case {
    type V = CaseView;

    open spec fn view(&self) -> CaseView {
        CaseView {
            id: self.id@,
            owner_id: self.owner_id,
            thread_id: self.thread_id,
            created_at: self.created_at@,
        }
    }
}

impl Case {
    /// Builds a record from its four fields.
    pub fn new(id: String, owner_id: u64, thread_id: u64, created_at: String) -> (case: Case)
        ensures
            case@ == (CaseView { id: id@, owner_id, thread_id, created_at: created_at@ }),
    {
        Case { id, owner_id, thread_id, created_at }
    }

    /// A second record with the same four fields.
    pub fn duplicate(&self) -> (case: Case)
        ensures
            case@ == self@,
    {
        Case {
            id: self.id.clone(),
            owner_id: self.owner_id,
            thread_id: self.thread_id,
            created_at: self.created_at.clone(),
        }
    }
}

} // verus!
