//! The case store: a mapping from case id to the case's record. Records are
//! written once and never changed or removed.

use vstd::prelude::*;
use crate::case::{Case, CaseError, CaseView};

verus! {

/// What `put` leaves in a store whose contents were `records`.
pub open spec fn records_after_put(
    records: Map<Seq<char>, CaseView>,
    case: CaseView,
) -> Map<Seq<char>, CaseView> {
    if records.contains_key(case.id) {
        records
    } else {
        records.insert(case.id, case)
    }
}

/// What `put` answers on a store whose contents are `records`.
pub open spec fn put_answer(records: Map<Seq<char>, CaseView>, case: CaseView) -> Result<
    (),
    CaseError,
> {
    if records.contains_key(case.id) {
        Err(CaseError::DuplicateId)
    } else {
        Ok(())
    }
}

/// What `get_by_id` answers on a store whose contents are `records`.
pub open spec fn lookup(records: Map<Seq<char>, CaseView>, id: Seq<char>) -> Result<
    CaseView,
    CaseError,
> {
    if records.contains_key(id) {
        Ok(records[id])
    } else {
        Err(CaseError::NotFound)
    }
}

/// The records of all cases, keyed by case id.
pub struct CaseStore {
    cases: Vec<Case>,
    records: Ghost<Map<Seq<char>, CaseView>>,
}

impl View for CaseStore {
    type V = Map<Seq<char>, CaseView>;

    closed spec fn view(&self) -> Map<Seq<char>, CaseView> {
        self.records@
    }
}

impl CaseStore {
    /// The stored records and the mapping they stand for agree.
    pub closed spec fn wf(&self) -> bool {
        &&& forall|i: int|
            0 <= i < self.cases@.len() ==> self.records@.contains_key(
                (#[trigger] self.cases@[i]).id@,
            ) && self.records@[self.cases@[i].id@] == self.cases@[i]@
        &&& forall|k: Seq<char>| #[trigger]
            self.records@.contains_key(k) ==> exists|i: int|
                0 <= i < self.cases@.len() && (#[trigger] self.cases@[i]).id@ == k
    }

    /// A store without records.
    pub fn new() -> (store: CaseStore)
        ensures
            store.wf(),
            store@ == Map::<Seq<char>, CaseView>::empty(),
    {
        CaseStore { cases: Vec::new(), records: Ghost(Map::empty()) }
    }

    /// Where the record with this id is kept, if there is one.
    fn position(&self, id: &String) -> (found: Option<usize>)
        requires
            self.wf(),
        ensures
            match found {
                Some(i) => i < self.cases@.len() && self.cases@[i as int].id@ == id@,
                None => !self@.contains_key(id@),
            },
    {
        let mut i: usize = 0;
        while i < self.cases.len()
            invariant
                self.wf(),
                i <= self.cases@.len(),
                forall|j: int| 0 <= j < i ==> (#[trigger] self.cases@[j]).id@ != id@,
            decreases self.cases@.len() - i,
        {
            if self.cases[i].id == *id {
                return Some(i);
            }
            i += 1;
        }
        None
    }

    /// Whether a record is stored under `id`.
    pub fn contains(&self, id: &String) -> (found: bool)
        requires
            self.wf(),
        ensures
            found == self@.contains_key(id@),
    {
        self.position(id).is_some()
    }

    /// Stores a new record under its id. A record whose id is already taken is
    /// refused with `DuplicateId`, and the store stays as it was.
    pub fn put(&mut self, case: Case) -> (answer: Result<(), CaseError>)
        requires
            old(self).wf(),
        ensures
            final(self).wf(),
            answer == put_answer(old(self)@, case@),
            final(self)@ == records_after_put(old(self)@, case@),
    {
        match self.position(&case.id) {
            Some(_) => Err(CaseError::DuplicateId),
            None => {
                let ghost before = self.cases@;
                let ghost earlier = self.records@;
                let ghost added = case@;
                proof {
                    self.records@ = earlier.insert(added.id, added);
                }
                self.cases.push(case);
                proof {
                    assert(self.cases@ == before.push(case));
                    assert forall|k: Seq<char>| #[trigger]
                        self.records@.contains_key(k) implies exists|i: int|
                        0 <= i < self.cases@.len() && (#[trigger] self.cases@[i]).id@ == k by {
                        if k == added.id {
                            assert(self.cases@[before.len() as int].id@ == k);
                        } else {
                            assert(earlier.contains_key(k));
                            let i = choose|i: int|
                                0 <= i < before.len() && (#[trigger] before[i]).id@ == k;
                            assert(self.cases@[i].id@ == k);
                        }
                    }
                    assert forall|i: int| 0 <= i < self.cases@.len() implies self.records@.contains_key(
                        (#[trigger] self.cases@[i]).id@,
                    ) && self.records@[self.cases@[i].id@] == self.cases@[i]@ by {
                        if i < before.len() {
                            assert(self.cases@[i] == before[i]);
                            assert(earlier.contains_key(before[i].id@));
                        }
                    }
                }
                Ok(())
            },
        }
    }

    /// The record stored under `id`, or `NotFound`.
    pub fn get_by_id(&self, id: &String) -> (answer: Result<Case, CaseError>)
        requires
            self.wf(),
        ensures
            match answer {
                Ok(case) => lookup(self@, id@) == Ok::<CaseView, CaseError>(case@),
                Err(e) => lookup(self@, id@) == Err::<CaseView, CaseError>(e),
            },
    {
        match self.position(id) {
            Some(i) => Ok(self.cases[i].duplicate()),
            None => Err(CaseError::NotFound),
        }
    }
}

} // verus!
