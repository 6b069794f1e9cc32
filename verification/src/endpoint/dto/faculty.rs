//! The API's representation of a faculty with its majors.
use vstd::prelude::*;

use super::major::{MajorDto, represents_major};
use crate::domain::faculty::{Faculty, FacultyView, major_views};

verus! {

#[derive(Debug)]
pub struct FacultyDto {
    pub id: u128,
    pub name: String,
    pub majors: Vec<MajorDto>,
}

/// The representation carries the faculty's identifier, name and majors in
/// order.
pub open spec fn represents_faculty(dto: FacultyDto, faculty: FacultyView) -> bool {
    &&& dto.id == faculty.id
    &&& dto.name@ == faculty.name
    &&& dto.majors@.len() == faculty.majors.len()
    &&& forall|i: int|
        0 <= i < faculty.majors.len() ==> represents_major(#[trigger] dto.majors@[i], faculty.majors[i])
}

impl FacultyDto {
    pub fn from_domain(faculty: &Faculty) -> (res: Self)
        ensures
            represents_faculty(res, faculty@),
    {
        let majors = faculty.majors();
        let mut dtos: Vec<MajorDto> = Vec::new();
        let mut i: usize = 0;
        while i < majors.len()
            invariant
                i <= majors@.len(),
                major_views(majors@) == faculty@.majors,
                dtos@.len() == i,
                forall|j: int| 0 <= j < i ==> represents_major(#[trigger] dtos@[j], faculty@.majors[j]),
            decreases majors@.len() - i,
        {
            assert(major_views(majors@)[i as int] == majors@[i as int]@);
            dtos.push(MajorDto::from_domain(&majors[i]));
            i = i + 1;
        }
        FacultyDto { id: faculty.id().id(), name: faculty.name().to_owned(), majors: dtos }
    }
}

} // verus!
