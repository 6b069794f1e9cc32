//! The API's representation of a subject.
use vstd::prelude::*;

use crate::domain::subject::{Subject, SubjectView};

verus! {

#[derive(Debug)]
pub struct SubjectDto {
    pub id: u128,
    pub name: String,
    pub faculty: u128,
    pub major: u128,
    pub grade: i64,
    pub term: i64,
}

/// The representation carries the subject's identifier, name, faculty, major,
/// grade and term.
pub open spec fn represents_subject(dto: SubjectDto, subject: SubjectView) -> bool {
    &&& dto.id == subject.id
    &&& dto.name@ == subject.name
    &&& dto.faculty == subject.faculty_id
    &&& dto.major == subject.major_id
    &&& dto.grade == subject.grade
    &&& dto.term == subject.term
}

/// A subject's API representation carries each of the subject's values in the
/// field of the same meaning: its identifier, name, faculty, major, its grade
/// in `grade` and its term in `term`.
pub proof fn law_representation_keeps_each_value(dto: SubjectDto, subject: SubjectView)
    requires
        represents_subject(dto, subject),
    ensures
        dto.id == subject.id,
        dto.name@ == subject.name,
        dto.faculty == subject.faculty_id,
        dto.major == subject.major_id,
        dto.grade == subject.grade,
        dto.term == subject.term,
{
}

impl SubjectDto {
    pub fn from_domain(subject: &Subject) -> (res: Self)
        ensures
            represents_subject(res, subject@),
            res.id == subject@.id,
            res.name@ == subject@.name,
            res.faculty == subject@.faculty_id,
            res.major == subject@.major_id,
            res.grade == subject@.grade,
            res.term == subject@.term,
    {
        SubjectDto {
            id: subject.id().id(),
            name: subject.name().to_owned(),
            faculty: subject.faculty_id().id(),
            major: subject.major_id().id(),
            grade: *subject.grade().grade(),
            term: *subject.term().term(),
        }
    }
}

} // verus!
