//! Deleting a subject.
use vstd::prelude::*;

use crate::domain::{Id, subject::Subject};

verus! {

/// Deleting a subject.
#[derive(Debug)]
pub struct DeleteSubjectUseCase<I> {
    repository: I,
}

impl<I> DeleteSubjectUseCase<I> {
    pub closed spec fn spec_repository(&self) -> I {
        self.repository
    }

    pub fn new(repository: I) -> (res: Self)
        ensures
            res.spec_repository() == repository,
    {
        DeleteSubjectUseCase { repository }
    }

    pub fn repository(&self) -> (res: &I)
        ensures
            *res == self.spec_repository(),
    {
        &self.repository
    }
}


/// Which subject to delete.
#[derive(Debug)]
pub struct DeleteSubjectInput {
    pub subject_id: Id<Subject>,
}

/// The outcome of deleting a subject.
#[derive(Debug)]
pub enum DeleteSubjectOutput {
    Deleted,
    ErrReferencedByDocuments,
    ErrSubjectNotExist(Id<Subject>),
}

} // verus!
