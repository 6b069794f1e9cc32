//! The API's representation of a major.
use vstd::prelude::*;

use crate::domain::major::{Major, MajorView};

verus! {

#[derive(Debug)]
pub struct MajorDto {
    pub id: u128,
    pub name: String,
}

/// The representation carries the major's identifier and name.
pub open spec fn represents_major(dto: MajorDto, major: MajorView) -> bool {
    dto.id == major.id && dto.name@ == major.name
}

impl MajorDto {
    pub fn from_domain(major: &Major) -> (res: Self)
        ensures
            represents_major(res, major@),
    {
        MajorDto { id: major.id().id(), name: major.name().to_owned() }
    }
}

} // verus!
