//! Updating a subject.
use vstd::prelude::*;

use crate::domain::{
    Grade, Id, Term,
    faculty::Faculty,
    major::Major,
    subject::{CourseCode, Subject},
};
use crate::usecase::repository::{SearchSubjectOption, UpdateSubjectContent};

verus! {

/// Updating a subject.
#[derive(Debug)]
pub struct UpdateSubjectUseCase<I> {
    repository: I,
}

impl<I> UpdateSubjectUseCase<I> {
    pub closed spec fn spec_repository(&self) -> I {
        self.repository
    }

    pub fn new(repository: I) -> (res: Self)
        ensures
            res.spec_repository() == repository,
    {
        UpdateSubjectUseCase { repository }
    }

    pub fn repository(&self) -> (res: &I)
        ensures
            *res == self.spec_repository(),
    {
        &self.repository
    }
}


/// Which subject to update, and its new content.
#[derive(Debug)]
pub struct UpdateSubjectInput {
    pub id: Id<Subject>,
    pub name: String,
    pub course_code: String,
    pub faculty_id: Id<Faculty>,
    pub major_id: Id<Major>,
    pub grade: Grade<Subject>,
    pub term: Term<Subject>,
}

/// The outcome of updating a subject.
#[derive(Debug)]
pub enum UpdateSubjectOutput {
    Updated(Subject),
    ErrCourseCodeNonUnique(String),
    ErrFacultyNotExist(Id<Faculty>),
    ErrMajorNotExist(Id<Major>),
    ErrSubjectNotExist(Id<Subject>),
    ErrFacultyMajorRelation(Id<Faculty>, Id<Major>),
}

impl<I> UpdateSubjectUseCase<I> {
    /// The search that tells whether the subject to update exists.
    pub fn existence_query(input: &UpdateSubjectInput) -> (res: SearchSubjectOption)
        ensures
            res.subject_id == Some(input.id),
            res.name.is_none(),
            res.faculty_id.is_none(),
            res.major_id.is_none(),
            res.grade.is_none(),
            res.term.is_none(),
    {
        SearchSubjectOption::by_id(input.id)
    }

    /// Given what the existence query found, either the identifier and new
    /// content to hand to the repository, or the answer that the subject does
    /// not exist.
    pub fn plan(input: UpdateSubjectInput, found: &[Subject]) -> (res: Result<
        (Id<Subject>, UpdateSubjectContent),
        UpdateSubjectOutput,
    >)
        ensures
            match res {
                Ok((id, content)) => {
                    &&& found@.len() > 0
                    &&& id == input.id
                    &&& content.name@ == input.name@
                    &&& content.course_code@ == input.course_code@
                    &&& content.faculty_id == input.faculty_id
                    &&& content.major_id == input.major_id
                    &&& content.grade == input.grade
                    &&& content.term == input.term
                },
                Err(out) => found@.len() == 0 && out == UpdateSubjectOutput::ErrSubjectNotExist(
                    input.id,
                ),
            },
    {
        if found.len() == 0 {
            return Err(UpdateSubjectOutput::ErrSubjectNotExist(input.id));
        }
        let course_code = match CourseCode::new(input.course_code) {
            Ok(c) => c,
            Err(_) => vstd::pervasive::unreached(),
        };
        let content = UpdateSubjectContent {
            name: input.name,
            course_code,
            faculty_id: input.faculty_id,
            major_id: input.major_id,
            grade: input.grade,
            term: input.term,
        };
        Ok((input.id, content))
    }
}

} // verus!
