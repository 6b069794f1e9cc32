//! Faculties and the majors they hold.
use vstd::prelude::*;

use super::{Id, major::{Major, MajorView}};

verus! {

/// Abstract value of a [`Faculty`].
pub struct FacultyView {
    pub id: u128,
    pub name: Seq<char>,
    pub majors: Seq<MajorView>,
}

/// The views of a sequence of majors.
pub open spec fn major_views(majors: Seq<Major>) -> Seq<MajorView> {
    majors.map_values(|m: Major| m@)
}

#[derive(Debug)]
pub struct Faculty {
    id: u128,
    name: String,
    majors: Vec<Major>,
}

impl View for Faculty {
    type V = FacultyView;

    closed spec fn view(&self) -> FacultyView {
        FacultyView { id: self.id, name: self.name@, majors: major_views(self.majors@) }
    }
}

/// Copies of `majors`, in order.
pub fn clone_majors(majors: &[Major]) -> (res: Vec<Major>)
    ensures
        major_views(res@) == major_views(majors@),
{
    let mut res: Vec<Major> = Vec::new();
    let mut i: usize = 0;
    while i < majors.len()
        invariant
            i <= majors@.len(),
            major_views(res@) == major_views(majors@.take(i as int)),
        decreases majors@.len() - i,
    {
        let m = majors[i].clone();
        let ghost prev = res@;
        res.push(m);
        assert(majors@.take(i + 1) == majors@.take(i as int).push(majors@[i as int]));
        assert(major_views(res@) =~= major_views(prev).push(majors@[i as int]@));
        assert(major_views(majors@.take(i + 1)) =~= major_views(majors@.take(i as int)).push(
            majors@[i as int]@,
        ));
        i = i + 1;
    }
    assert(majors@.take(majors@.len() as int) =~= majors@);
    res
}

impl Faculty {
    pub fn new(id: Id<Faculty>, name: String, majors: Vec<Major>) -> (res: Self)
        ensures
            res@ == (FacultyView { id: id.value(), name: name@, majors: major_views(majors@) }),
    {
        Faculty { id: id.id(), name, majors }
    }

    pub fn id(&self) -> (res: Id<Faculty>)
        ensures
            res.value() == self@.id,
    {
        Id::new(self.id)
    }

    pub fn name(&self) -> (res: &str)
        ensures
            res@ == self@.name,
    {
        self.name.as_str()
    }

    pub fn majors(&self) -> (res: &[Major])
        ensures
            major_views(res@) == self@.majors,
    {
        self.majors.as_slice()
    }
}

impl Clone for Faculty {
    fn clone(&self) -> (res: Self)
        ensures
            res@ == self@,
    {
        Faculty { id: self.id, name: self.name.clone(), majors: clone_majors(self.majors.as_slice()) }
    }
}

} // verus!

verus! {

/// The views of a sequence of faculties.
pub open spec fn faculty_views(faculties: Seq<Faculty>) -> Seq<FacultyView> {
    faculties.map_values(|f: Faculty| f@)
}

/// Copies of `faculties`, in order.
pub fn clone_faculties(faculties: &[Faculty]) -> (res: Vec<Faculty>)
    ensures
        faculty_views(res@) == faculty_views(faculties@),
{
    let mut res: Vec<Faculty> = Vec::new();
    let mut i: usize = 0;
    while i < faculties.len()
        invariant
            i <= faculties@.len(),
            faculty_views(res@) == faculty_views(faculties@.take(i as int)),
        decreases faculties@.len() - i,
    {
        let f = faculties[i].clone();
        let ghost prev = res@;
        res.push(f);
        assert(faculties@.take(i + 1) == faculties@.take(i as int).push(faculties@[i as int]));
        assert(faculty_views(res@) =~= faculty_views(prev).push(faculties@[i as int]@));
        assert(faculty_views(faculties@.take(i + 1)) =~= faculty_views(faculties@.take(i as int)).push(
            faculties@[i as int]@,
        ));
        i = i + 1;
    }
    assert(faculties@.take(faculties@.len() as int) =~= faculties@);
    res
}

} // verus!
