//! Creating a subject.
use vstd::prelude::*;

use crate::domain::{
    Grade, Id, Term, is_uuid_v4,
    faculty::Faculty,
    major::Major,
    subject::{CourseCode, Subject},
};

verus! {

/// Creating a subject.
#[derive(Debug)]
pub struct CreateSubjectUseCase<I> {
    repository: I,
}

impl<I> CreateSubjectUseCase<I> {
    pub closed spec fn spec_repository(&self) -> I {
        self.repository
    }

    pub fn new(repository: I) -> (res: Self)
        ensures
            res.spec_repository() == repository,
    {
        CreateSubjectUseCase { repository }
    }

    pub fn repository(&self) -> (res: &I)
        ensures
            *res == self.spec_repository(),
    {
        &self.repository
    }
}


/// What a new subject is made of; its identifier is chosen when it is created.
#[derive(Debug)]
pub struct CreateSubjectInput {
    pub name: String,
    pub course_code: String,
    pub faculty_id: Id<Faculty>,
    pub major_id: Id<Major>,
    pub grade: Grade<Subject>,
    pub term: Term<Subject>,
}

/// The outcome of creating a subject.
#[derive(Debug)]
pub enum CreateSubjectOutput {
    Created(Subject),
    ErrCourseCodeNonUnique(String),
    ErrFacultyNotExist(Id<Faculty>),
    ErrMajorNotExist(Id<Major>),
    ErrFacultyMajorRelation(Id<Faculty>, Id<Major>),
}

impl<I> CreateSubjectUseCase<I> {
    /// The subject to store for `input`, under a new random identifier.
    pub fn new_subject(input: CreateSubjectInput) -> (res: Subject)
        ensures
            is_uuid_v4(res@.id),
            res@.name == input.name@,
            res@.course_code == input.course_code@,
            res@.faculty_id == input.faculty_id.value(),
            res@.major_id == input.major_id.value(),
            res@.grade == input.grade.value(),
            res@.term == input.term.value(),
    {
        let id: Id<Subject> = Id::generate();
        let course_code = match CourseCode::new(input.course_code) {
            Ok(c) => c,
            Err(_) => vstd::pervasive::unreached(),
        };
        Subject::new(
            id,
            input.name,
            course_code,
            input.faculty_id,
            input.major_id,
            input.grade,
            input.term,
        )
    }
}

} // verus!
