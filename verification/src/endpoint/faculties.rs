//! `GET /faculties`.
use vstd::prelude::*;

use super::{
    EndpointResult, STATUS_OK, is_unexpected_error, unexpected_error,
    dto::faculty::{FacultyDto, represents_faculty},
};
use crate::domain::faculty::Faculty;

verus! {

/// The answer to `GET /faculties` once the use case has run: `None` when it
/// failed.
pub fn get_faculties_response(outcome: Option<Vec<Faculty>>) -> (res: EndpointResult<Vec<FacultyDto>>)
    ensures
        match outcome {
            None => is_unexpected_error(res),
            Some(faculties) => {
                &&& res.0 == STATUS_OK
                &&& res.1 matches Ok(dtos) && dtos@.len() == faculties@.len() && forall|i: int|
                    0 <= i < faculties@.len() ==> represents_faculty(
                        #[trigger] dtos@[i],
                        faculties@[i]@,
                    )
            },
        },
{
    match outcome {
        None => unexpected_error(),
        Some(faculties) => {
            let mut dtos: Vec<FacultyDto> = Vec::new();
            let mut i: usize = 0;
            while i < faculties.len()
                invariant
                    i <= faculties@.len(),
                    dtos@.len() == i,
                    forall|j: int| 0 <= j < i ==> represents_faculty(#[trigger] dtos@[j], faculties@[j]@),
                decreases faculties@.len() - i,
            {
                dtos.push(FacultyDto::from_domain(&faculties[i]));
                i = i + 1;
            }
            (STATUS_OK, Ok(dtos))
        },
    }
}

} // verus!
