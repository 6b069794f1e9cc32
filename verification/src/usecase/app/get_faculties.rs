//! Listing the faculties with their majors.
use vstd::prelude::*;

verus! {

/// Lists every faculty; the repository does the work.
#[derive(Debug)]
pub struct GetFacultiesUseCase<I> {
    repository: I,
}

impl<I> GetFacultiesUseCase<I> {
    pub closed spec fn spec_repository(&self) -> I {
        self.repository
    }

    pub fn new(repository: I) -> (res: Self)
        ensures
            res.spec_repository() == repository,
    {
        GetFacultiesUseCase { repository }
    }

    pub fn repository(&self) -> (res: &I)
        ensures
            *res == self.spec_repository(),
    {
        &self.repository
    }
}

} // verus!
