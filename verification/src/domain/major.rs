//! Majors: the courses of study inside a faculty.
use vstd::prelude::*;

use super::{Id, faculty::Faculty};

verus! {

/// Abstract value of a [`Major`].
pub struct MajorView {
    pub id: u128,
    pub name: Seq<char>,
    pub faculty_id: u128,
}

#[derive(Debug)]
pub struct Major {
    id: u128,
    name: String,
    faculty_id: u128,
}

impl View for Major {
    type V = MajorView;

    closed spec fn view(&self) -> MajorView {
        MajorView { id: self.id, name: self.name@, faculty_id: self.faculty_id }
    }
}

impl Major {
    pub fn new(id: Id<Major>, name: String, faculty_id: Id<Faculty>) -> (res: Self)
        ensures
            res@ == (MajorView { id: id.value(), name: name@, faculty_id: faculty_id.value() }),
    {
        Major { id: id.id(), name, faculty_id: faculty_id.id() }
    }

    pub fn id(&self) -> (res: Id<Major>)
        ensures
            res.value() == self@.id,
    {
        Id::new(self.id)
    }

    pub fn name(&self) -> (res: &str)
        ensures
            res@ == self@.name,
    {
        self.name.as_str()
    }

    pub fn faculty_id(&self) -> (res: Id<Faculty>)
        ensures
            res.value() == self@.faculty_id,
    {
        Id::new(self.faculty_id)
    }
}

impl Clone for Major {
    fn clone(&self) -> (res: Self)
        ensures
            res@ == self@,
    {
        Major { id: self.id, name: self.name.clone(), faculty_id: self.faculty_id }
    }
}

} // verus!
