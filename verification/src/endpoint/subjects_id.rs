//! `PUT /subjects/{id}` and `DELETE /subjects/{id}`.
use vstd::prelude::*;

use super::{
    EndpointError, EndpointResult, STATUS_BAD_REQUEST, STATUS_CONFLICT, STATUS_NOT_FOUND,
    STATUS_NO_CONTENT, STATUS_OK, error_with_400, is_unexpected_error, unexpected_error,
    dto::subject::{SubjectDto, represents_subject},
    subjects::{is_validation_error, parse_error_to_endpoint_error},
};
use crate::domain::{Grade, Id, RangeValidationError, Term, subject::Subject, valid_grade, valid_term};
use crate::text::concat3;
use crate::usecase::app::{
    delete_subject::DeleteSubjectOutput,
    update_subject::{UpdateSubjectInput, UpdateSubjectOutput},
};

verus! {

/// The body of `PUT /subjects/{id}`.
#[derive(Debug)]
pub struct PutSubjectsIdInput {
    pub name: String,
    pub course_code: String,
    pub faculty: u128,
    pub major: u128,
    pub grade: i64,
    pub term: i64,
}

impl PutSubjectsIdInput {
    /// The use case input for this body and the subject `subject_id`: refused
    /// when the grade, then the term, is out of range.
    pub fn to_update_subject_input(&self, subject_id: u128) -> (res: Result<
        UpdateSubjectInput,
        EndpointError,
    >)
        ensures
            match res {
                Ok(input) => {
                    &&& valid_grade(self.grade as int) && valid_term(self.term as int)
                    &&& input.id.value() == subject_id
                    &&& input.name@ == self.name@
                    &&& input.course_code@ == self.course_code@
                    &&& input.faculty_id.value() == self.faculty
                    &&& input.major_id.value() == self.major
                    &&& input.grade.value() == self.grade
                    &&& input.term.value() == self.term
                },
                Err(e) => if !valid_grade(self.grade as int) {
                    is_validation_error(
                        e,
                        RangeValidationError {
                            actual: self.grade,
                            expect_upper: Some(crate::domain::GRADE_UPPER),
                            expect_lower: Some(crate::domain::GRADE_LOWER),
                        },
                    )
                } else {
                    &&& !valid_term(self.term as int)
                    &&& is_validation_error(
                        e,
                        RangeValidationError {
                            actual: self.term,
                            expect_upper: Some(crate::domain::TERM_UPPER),
                            expect_lower: Some(crate::domain::TERM_LOWER),
                        },
                    )
                },
            },
    {
        let grade = match Grade::new(self.grade) {
            Ok(g) => g,
            Err(e) => return Err(parse_error_to_endpoint_error(e)),
        };
        let term = match Term::new(self.term) {
            Ok(t) => t,
            Err(e) => return Err(parse_error_to_endpoint_error(e)),
        };
        Ok(
            UpdateSubjectInput {
                id: Id::new(subject_id),
                name: self.name.clone(),
                course_code: self.course_code.clone(),
                faculty_id: Id::new(self.faculty),
                major_id: Id::new(self.major),
                grade,
                term,
            },
        )
    }
}

/// The error answer to each refusal of updating a subject, as message and
/// details; none for an update.
pub open spec fn update_refusal(o: UpdateSubjectOutput) -> Option<(Seq<char>, Seq<char>)> {
    match o {
        UpdateSubjectOutput::Updated(_) => None,
        UpdateSubjectOutput::ErrCourseCodeNonUnique(code) => Some(
            (
                "duplicate check failed"@,
                "subject which have course_code '"@ + code@ + "' already exists"@,
            ),
        ),
        UpdateSubjectOutput::ErrSubjectNotExist(_) => Some(
            ("invalid subject_id"@, "subject does not exist"@),
        ),
        UpdateSubjectOutput::ErrFacultyNotExist(_) => Some(
            ("invalid faculty_id"@, "faculty does not exist"@),
        ),
        UpdateSubjectOutput::ErrMajorNotExist(_) => Some(
            ("invalid major_id"@, "major does not exist"@),
        ),
        UpdateSubjectOutput::ErrFacultyMajorRelation(_, _) => Some(
            ("invalid major_id"@, "major does not belong to faculty"@),
        ),
    }
}

/// The updated subject, or the error that answers the refusal.
pub fn convert_update_subject_output(o: UpdateSubjectOutput) -> (res: Result<Subject, EndpointError>)
    ensures
        match res {
            Ok(s) => o == UpdateSubjectOutput::Updated(s),
            Err(e) => update_refusal(o) matches Some((m, d)) && e.reads(m, Some(d)),
        },
{
    match o {
        UpdateSubjectOutput::Updated(subject) => Ok(subject),
        UpdateSubjectOutput::ErrCourseCodeNonUnique(course_code) => Err(
            EndpointError::new(
                "duplicate check failed",
                Some(
                    concat3(
                        "subject which have course_code '",
                        course_code.as_str(),
                        "' already exists",
                    ),
                ),
            ),
        ),
        UpdateSubjectOutput::ErrSubjectNotExist(_subject_id) => Err(
            EndpointError::new("invalid subject_id", Some("subject does not exist".to_owned())),
        ),
        UpdateSubjectOutput::ErrFacultyNotExist(_faculty_id) => Err(
            EndpointError::new("invalid faculty_id", Some("faculty does not exist".to_owned())),
        ),
        UpdateSubjectOutput::ErrMajorNotExist(_major_id) => Err(
            EndpointError::new("invalid major_id", Some("major does not exist".to_owned())),
        ),
        UpdateSubjectOutput::ErrFacultyMajorRelation(_faculty_id, _major_id) => Err(
            EndpointError::new("invalid major_id", Some("major does not belong to faculty".to_owned())),
        ),
    }
}

/// The answer to `PUT /subjects/{id}` once the use case has run: `None` when
/// it failed.
pub fn put_subject_response(outcome: Option<UpdateSubjectOutput>) -> (res: EndpointResult<SubjectDto>)
    ensures
        match outcome {
            None => is_unexpected_error(res),
            Some(UpdateSubjectOutput::Updated(s)) => {
                &&& res.0 == STATUS_OK
                &&& res.1 matches Ok(dto) && represents_subject(dto, s@)
            },
            Some(o) => {
                &&& res.0 == STATUS_BAD_REQUEST
                &&& update_refusal(o) matches Some((m, d)) && res.1 matches Err(e) && e.reads(
                    m,
                    Some(d),
                )
            },
        },
{
    match outcome {
        None => unexpected_error(),
        Some(o) => match convert_update_subject_output(o) {
            Ok(subject) => (STATUS_OK, Ok(SubjectDto::from_domain(&subject))),
            Err(e) => error_with_400(e),
        },
    }
}

/// The answer to `DELETE /subjects/{id}` once the use case has run: `None`
/// when it failed.
pub fn delete_subject_response(outcome: Option<DeleteSubjectOutput>) -> (res: EndpointResult<()>)
    ensures
        match outcome {
            None => is_unexpected_error(res),
            Some(DeleteSubjectOutput::Deleted) => res.0 == STATUS_NO_CONTENT && res.1 is Ok,
            Some(DeleteSubjectOutput::ErrReferencedByDocuments) => {
                &&& res.0 == STATUS_CONFLICT
                &&& res.1 matches Err(e) && e.reads(
                    "subject is still referenced by documents"@,
                    Some("reassign or delete them before deleting this subject"@),
                )
            },
            Some(DeleteSubjectOutput::ErrSubjectNotExist(_)) => {
                &&& res.0 == STATUS_NOT_FOUND
                &&& res.1 matches Err(e) && e.reads(
                    "invalid subject_id"@,
                    Some("subject does not exist"@),
                )
            },
        },
{
    match outcome {
        Some(DeleteSubjectOutput::Deleted) => (STATUS_NO_CONTENT, Ok(())),
        Some(DeleteSubjectOutput::ErrReferencedByDocuments) => (
            STATUS_CONFLICT,
            Err(
                EndpointError::new(
                    "subject is still referenced by documents",
                    Some("reassign or delete them before deleting this subject".to_owned()),
                ),
            ),
        ),
        Some(DeleteSubjectOutput::ErrSubjectNotExist(_subject_id)) => (
            STATUS_NOT_FOUND,
            Err(EndpointError::new("invalid subject_id", Some("subject does not exist".to_owned()))),
        ),
        None => unexpected_error(),
    }
}

} // verus!
