//! Searching the documents of a subject.
use vstd::prelude::*;

use crate::domain::{
    Id, Year,
    document::{DocumentMetadata, ExamType},
    subject::Subject,
};
use crate::usecase::repository::SearchDocumentOption;

verus! {

/// Searching the documents of a subject.
#[derive(Debug)]
pub struct GetDocumentsUseCase<I> {
    repository: I,
}

impl<I> GetDocumentsUseCase<I> {
    pub closed spec fn spec_repository(&self) -> I {
        self.repository
    }

    pub fn new(repository: I) -> (res: Self)
        ensures
            res.spec_repository() == repository,
    {
        GetDocumentsUseCase { repository }
    }

    pub fn repository(&self) -> (res: &I)
        ensures
            *res == self.spec_repository(),
    {
        &self.repository
    }
}


/// Which documents of a subject to find: each condition that is given must
/// hold.
#[derive(Debug)]
pub struct GetDocumentsOption {
    pub subject_id: Id<Subject>,
    pub year: Option<Year<DocumentMetadata>>,
    pub teacher: Option<String>,
    pub exam_type: Option<ExamType>,
    pub is_answer: Option<bool>,
}

impl<I> GetDocumentsUseCase<I> {
    /// The repository search that carries out `option`.
    pub fn search_option(option: GetDocumentsOption) -> (res: SearchDocumentOption)
        ensures
            res.subject_id == option.subject_id,
            res.year == option.year,
            res.teacher == option.teacher,
            res.exam_type == option.exam_type,
            res.is_answer == option.is_answer,
    {
        SearchDocumentOption {
            subject_id: option.subject_id,
            year: option.year,
            teacher: option.teacher,
            exam_type: option.exam_type,
            is_answer: option.is_answer,
        }
    }
}

} // verus!
