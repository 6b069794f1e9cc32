//! `GET /subjects` and `POST /subjects`.
use vstd::prelude::*;

use super::{
    EndpointError, EndpointResult, STATUS_BAD_REQUEST, STATUS_CREATED, STATUS_OK,
    error_with_400, is_unexpected_error, unexpected_error,
    dto::subject::{SubjectDto, represents_subject},
};
use crate::domain::{
    Grade, Id, RangeValidationError, Term, range_error_text, valid_grade, valid_term,
    subject::Subject,
    uuid_hyphenated_text,
};
use crate::text::{concat, concat3};
use crate::usecase::app::{
    create_subject::{CreateSubjectInput, CreateSubjectOutput},
    get_subjects::GetSubjectsOption,
};

verus! {

/// The query of `GET /subjects`.
#[derive(Debug, Clone, Copy)]
pub struct Input {
    pub faculty: u128,
    pub major: Option<u128>,
    pub grade: Option<i64>,
    pub term: Option<i64>,
}

impl Input {
    pub fn to_get_subjects_option(&self) -> (res: GetSubjectsOption)
        ensures
            res.faculty_id == self.faculty,
            res.major_id == self.major,
            res.grade == self.grade,
            res.term == self.term,
    {
        GetSubjectsOption {
            faculty_id: self.faculty,
            major_id: self.major,
            grade: self.grade,
            term: self.term,
        }
    }
}

/// The body of `POST /subjects`.
#[derive(Debug)]
pub struct PostInput {
    pub name: String,
    pub course_code: String,
    pub faculty: u128,
    pub major: u128,
    pub grade: i64,
    pub term: i64,
}

/// The answer to a value that failed its range check: `validation error`,
/// with the error's text as details.
pub open spec fn is_validation_error(e: EndpointError, r: RangeValidationError) -> bool {
    e.reads("validation error"@, Some(range_error_text(r)))
}

pub fn parse_error_to_endpoint_error(e: RangeValidationError) -> (res: EndpointError)
    ensures
        is_validation_error(res, e),
{
    EndpointError::new("validation error", Some(e.to_string()))
}

impl PostInput {
    /// The use case input for this body: refused when the grade, then the
    /// term, is out of range.
    pub fn to_create_subject_input(&self) -> (res: Result<CreateSubjectInput, EndpointError>)
        ensures
            match res {
                Ok(input) => {
                    &&& valid_grade(self.grade as int) && valid_term(self.term as int)
                    &&& input.name@ == self.name@
                    &&& input.course_code@ == self.course_code@
                    &&& input.faculty_id.value() == self.faculty
                    &&& input.major_id.value() == self.major
                    &&& input.grade.value() == self.grade
                    &&& input.term.value() == self.term
                },
                Err(e) => if !valid_grade(self.grade as int) {
                    is_validation_error(
                        e,
                        RangeValidationError {
                            actual: self.grade,
                            expect_upper: Some(crate::domain::GRADE_UPPER),
                            expect_lower: Some(crate::domain::GRADE_LOWER),
                        },
                    )
                } else {
                    &&& !valid_term(self.term as int)
                    &&& is_validation_error(
                        e,
                        RangeValidationError {
                            actual: self.term,
                            expect_upper: Some(crate::domain::TERM_UPPER),
                            expect_lower: Some(crate::domain::TERM_LOWER),
                        },
                    )
                },
            },
    {
        let grade = match Grade::new(self.grade) {
            Ok(g) => g,
            Err(e) => return Err(parse_error_to_endpoint_error(e)),
        };
        let term = match Term::new(self.term) {
            Ok(t) => t,
            Err(e) => return Err(parse_error_to_endpoint_error(e)),
        };
        Ok(
            CreateSubjectInput {
                name: self.name.clone(),
                course_code: self.course_code.clone(),
                faculty_id: Id::new(self.faculty),
                major_id: Id::new(self.major),
                grade,
                term,
            },
        )
    }
}

/// The error answer to each refusal of creating a subject, as message and
/// details; none for a creation.
pub open spec fn create_refusal(o: CreateSubjectOutput) -> Option<(Seq<char>, Seq<char>)> {
    match o {
        CreateSubjectOutput::Created(_) => None,
        CreateSubjectOutput::ErrCourseCodeNonUnique(code) => Some(
            (
                "duplicate check failed"@,
                "subject which have course_code '"@ + code@ + "' already exists"@,
            ),
        ),
        CreateSubjectOutput::ErrFacultyNotExist(_) => Some(
            ("invalid faculty_id"@, "faculty does not exist"@),
        ),
        CreateSubjectOutput::ErrMajorNotExist(_) => Some(
            ("invalid major_id"@, "major does not exist"@),
        ),
        CreateSubjectOutput::ErrFacultyMajorRelation(_, _) => Some(
            ("invalid major_id"@, "major does not belong to faculty"@),
        ),
    }
}

/// The created subject, or the error that answers the refusal.
pub fn convert_create_subject_output(o: CreateSubjectOutput) -> (res: Result<Subject, EndpointError>)
    ensures
        match res {
            Ok(s) => o == CreateSubjectOutput::Created(s),
            Err(e) => create_refusal(o) matches Some((m, d)) && e.reads(m, Some(d)),
        },
{
    match o {
        CreateSubjectOutput::Created(subject) => Ok(subject),
        CreateSubjectOutput::ErrCourseCodeNonUnique(course_code) => Err(
            EndpointError::new(
                "duplicate check failed",
                Some(
                    concat3(
                        "subject which have course_code '",
                        course_code.as_str(),
                        "' already exists",
                    ),
                ),
            ),
        ),
        CreateSubjectOutput::ErrFacultyNotExist(_faculty_id) => Err(
            EndpointError::new("invalid faculty_id", Some("faculty does not exist".to_owned())),
        ),
        CreateSubjectOutput::ErrMajorNotExist(_major_id) => Err(
            EndpointError::new("invalid major_id", Some("major does not exist".to_owned())),
        ),
        CreateSubjectOutput::ErrFacultyMajorRelation(_faculty_id, _major_id) => Err(
            EndpointError::new("invalid major_id", Some("major does not belong to faculty".to_owned())),
        ),
    }
}

/// The answer to a created subject: where it now lives, and its
/// representation.
#[derive(Debug)]
pub struct CreatedSubject {
    pub location: String,
    pub subject: SubjectDto,
}

/// The path of a subject: `/subjects/` and its hyphenated identifier.
pub open spec fn subject_location(id: u128) -> Seq<char> {
    "/subjects/"@ + uuid_hyphenated_text(id)
}

/// The answer to `POST /subjects` once the use case has run: `None` when it
/// failed.
pub fn post_subject_response(outcome: Option<CreateSubjectOutput>) -> (res: EndpointResult<
    CreatedSubject,
>)
    ensures
        match outcome {
            None => is_unexpected_error(res),
            Some(CreateSubjectOutput::Created(s)) => {
                &&& res.0 == STATUS_CREATED
                &&& res.1 matches Ok(c) && c.location@ == subject_location(s@.id) && represents_subject(
                    c.subject,
                    s@,
                )
            },
            Some(o) => {
                &&& res.0 == STATUS_BAD_REQUEST
                &&& create_refusal(o) matches Some((m, d)) && res.1 matches Err(e) && e.reads(
                    m,
                    Some(d),
                )
            },
        },
{
    match outcome {
        None => unexpected_error(),
        Some(o) => match convert_create_subject_output(o) {
            Ok(subject) => {
                let id = subject.id().hyphenated();
                let location = concat("/subjects/", id.as_str());
                (
                    STATUS_CREATED,
                    Ok(CreatedSubject { location, subject: SubjectDto::from_domain(&subject) }),
                )
            },
            Err(e) => error_with_400(e),
        },
    }
}

/// The answer to `GET /subjects` once the use case has run: `None` when it
/// failed.
pub fn get_subjects_response(outcome: Option<Vec<Subject>>) -> (res: EndpointResult<Vec<SubjectDto>>)
    ensures
        match outcome {
            None => is_unexpected_error(res),
            Some(subjects) => {
                &&& res.0 == STATUS_OK
                &&& res.1 matches Ok(dtos) && dtos@.len() == subjects@.len() && forall|i: int|
                    0 <= i < subjects@.len() ==> represents_subject(
                        #[trigger] dtos@[i],
                        subjects@[i]@,
                    )
            },
        },
{
    match outcome {
        None => unexpected_error(),
        Some(subjects) => {
            let mut dtos: Vec<SubjectDto> = Vec::new();
            let mut i: usize = 0;
            while i < subjects.len()
                invariant
                    i <= subjects@.len(),
                    dtos@.len() == i,
                    forall|j: int| 0 <= j < i ==> represents_subject(#[trigger] dtos@[j], subjects@[j]@),
                decreases subjects@.len() - i,
            {
                dtos.push(SubjectDto::from_domain(&subjects[i]));
                i = i + 1;
            }
            (STATUS_OK, Ok(dtos))
        },
    }
}

} // verus!
