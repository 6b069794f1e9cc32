//! The API's representation of a document and its metadata.
use vstd::prelude::*;

use crate::domain::document::{
    Document, DocumentMetadata, DocumentMetadataView, ExamType, exam_type_name,
};

verus! {

/// An exam type by name: `quiz`, `midterm`, `final` or `other`.
#[derive(Debug)]
pub struct ExamTypeDto(pub String);

impl ExamTypeDto {
    pub fn from_domain(domain: &ExamType) -> (res: Self)
        ensures
            res.0@ == exam_type_name(*domain),
    {
        ExamTypeDto(domain.name().to_owned())
    }
}

#[derive(Debug)]
pub struct DocumentMetadataDto {
    pub faculty: u128,
    pub major: u128,
    pub year: i64,
    pub term: i64,
    pub grade: i64,
    pub subject: u128,
    pub teacher: String,
    pub examtype: ExamTypeDto,
    pub isanswer: bool,
    pub num: i64,
}

/// The representation carries every field of the metadata, the exam type by
/// name.
pub open spec fn represents_metadata(dto: DocumentMetadataDto, m: DocumentMetadataView) -> bool {
    &&& dto.faculty == m.faculty_id
    &&& dto.major == m.major_id
    &&& dto.year == m.year
    &&& dto.term == m.term
    &&& dto.grade == m.grade
    &&& dto.subject == m.subject_id
    &&& dto.teacher@ == m.teacher
    &&& dto.examtype.0@ == exam_type_name(m.exam_type)
    &&& dto.isanswer == m.is_answer
    &&& dto.num == m.num
}

impl DocumentMetadataDto {
    pub fn from_domain(domain: &DocumentMetadata) -> (res: Self)
        ensures
            represents_metadata(res, domain@),
    {
        DocumentMetadataDto {
            faculty: domain.faculty_id().id(),
            major: domain.major_id().id(),
            year: *domain.year().year(),
            term: *domain.term().term(),
            grade: *domain.grade().grade(),
            subject: domain.subject_id().id(),
            teacher: domain.teacher().to_owned(),
            examtype: ExamTypeDto::from_domain(domain.exam_type()),
            isanswer: *domain.is_answer(),
            num: *domain.num().num(),
        }
    }
}

#[derive(Debug)]
pub struct DocumentDto {
    pub id: u128,
    pub metadata: DocumentMetadataDto,
}

impl DocumentDto {
    pub fn from_domain(domain: &Document) -> (res: Self)
        ensures
            res.id == domain@.id,
            represents_metadata(res.metadata, domain@.metadata),
    {
        DocumentDto {
            id: domain.id().id(),
            metadata: DocumentMetadataDto::from_domain(domain.metadata()),
        }
    }
}

} // verus!
