//! Writing the rows of one run to the store, one statement at a time.

use crate::github::repository::{Repository, UpsertError};
use vstd::prelude::*;

verus! {

/// The rows of one run and how far writing them has come. Rows are written
/// in their order; the first one that is not written ends the run, and the
/// rows after it are never written.
#[derive(Debug)]
pub struct Batch {
    rows: Vec<Repository>,
    written: usize,
    failure: Option<UpsertError>,
}

/// What the store reports of one statement.
#[derive(Debug, Clone, Copy, PartialEq, Eq)]
pub enum Report {
    /// The statement ran and changed this many rows.
    RowsAffected(u64),
    /// The statement failed.
    Failed,
}

/// How a statement is judged: it wrote its row where it ran and changed a
/// row.
pub open spec fn spec_judge(report: Report) -> Result<(), UpsertError> {
    match report {
        Report::RowsAffected(rows) => if rows > 0 {
            Ok(())
        } else {
            Err(UpsertError::NothingUpserted)
        },
        Report::Failed => Err(UpsertError::StoreFailed),
    }
}

impl Batch {
    #[verifier::type_invariant]
    spec fn well_formed(self) -> bool {
        self.written <= self.rows.len()
    }

    /// The rows of the run.
    pub closed spec fn spec_rows(self) -> Seq<Repository> {
        self.rows@
    }

    /// How many rows were written.
    pub closed spec fn spec_written(self) -> nat {
        self.written as nat
    }

    /// Why the run ended early, if it did.
    pub closed spec fn spec_failure(self) -> Option<UpsertError> {
        self.failure
    }

    /// The index of the row that is to be written next: there is one while
    /// nothing failed and rows are left.
    pub open spec fn spec_pending(self) -> Option<int> {
        if self.spec_failure() is None && self.spec_written() < self.spec_rows().len() {
            Some(self.spec_written() as int)
        } else {
            None
        }
    }

    /// A run in which nothing is written yet.
    pub fn new(rows: Vec<Repository>) -> (batch: Batch)
        ensures
            batch.spec_rows() == rows@,
            batch.spec_written() == 0,
            batch.spec_failure() is None,
    {
        Batch { rows, written: 0, failure: None }
    }

    /// The rows of the run.
    pub fn rows(&self) -> (rows: &Vec<Repository>)
        ensures
            rows@ == self.spec_rows(),
    {
        &self.rows
    }

    /// Whether every row was written.
    pub fn is_finished(&self) -> (finished: bool)
        ensures
            finished == (self.spec_failure() is None && self.spec_written()
                == self.spec_rows().len()),
    {
        self.failure.is_none() && self.written == self.rows.len()
    }

    /// How many rows were written; never more than there are.
    pub fn written(&self) -> (written: usize)
        ensures
            written == self.spec_written(),
            written <= self.spec_rows().len(),
    {
        proof {
            use_type_invariant(self);
        }
        self.written
    }

    /// Why the run ended early, if it did.
    pub fn failure(&self) -> (failure: Option<UpsertError>)
        ensures
            failure == self.spec_failure(),
    {
        self.failure
    }

    /// The row that is to be written next, if any.
    pub fn pending(&self) -> (row: Option<&Repository>)
        ensures
            match self.spec_pending() {
                Some(i) => 0 <= i < self.spec_rows().len() && row == Some(&self.spec_rows()[i]),
                None => row is None,
            },
    {
        proof {
            use_type_invariant(self);
        }
        if self.failure.is_none() && self.written < self.rows.len() {
            Some(&self.rows[self.written])
        } else {
            None
        }
    }

    /// Takes the store's report of the statement for the pending row. A row
    /// that was written makes the next one pending; another ends the run.
    /// Without a pending row the report is of no statement of this run and
    /// changes nothing; the result then says how the run stands.
    pub fn record(&mut self, report: Report) -> (outcome: Result<(), UpsertError>)
        ensures
            final(self).spec_rows() == old(self).spec_rows(),
            match old(self).spec_pending() {
                Some(_) => {
                    &&& outcome == spec_judge(report)
                    &&& final(self).spec_written() == old(self).spec_written() + if outcome is Ok {
                        1nat
                    } else {
                        0nat
                    }
                    &&& final(self).spec_failure() == match outcome {
                        Ok(_) => None,
                        Err(e) => Some(e),
                    }
                },
                None => {
                    &&& final(self).spec_written() == old(self).spec_written()
                    &&& final(self).spec_failure() == old(self).spec_failure()
                    &&& outcome == match old(self).spec_failure() {
                        Some(e) => Err::<(), UpsertError>(e),
                        None => Ok(()),
                    }
                },
            },
    {
        proof {
            use_type_invariant(&*self);
        }
        if self.failure.is_none() && self.written < self.rows.len() {
            let outcome = self.rows[self.written].upsert(report);
            match outcome {
                Ok(_) => {
                    self.written = self.written + 1;
                },
                Err(e) => {
                    self.failure = Some(e);
                },
            }
            outcome
        } else {
            match self.failure {
                Some(e) => Err(e),
                None => Ok(()),
            }
        }
    }
}

} // verus!
