//! Teachers, optionally attached to a faculty.
use vstd::prelude::*;

use super::{Id, faculty::Faculty};

verus! {

/// Abstract value of a [`Teacher`].
pub struct TeacherView {
    pub id: u128,
    pub name: Seq<char>,
    pub belong_faculty_id: Option<u128>,
}

#[derive(Debug)]
pub struct Teacher {
    id: u128,
    name: String,
    belong_faculty_id: Option<u128>,
}

impl View for Teacher {
    type V = TeacherView;

    closed spec fn view(&self) -> TeacherView {
        TeacherView { id: self.id, name: self.name@, belong_faculty_id: self.belong_faculty_id }
    }
}

impl Teacher {
    pub fn new(id: Id<Teacher>, name: String, belong_faculty_id: Option<Id<Faculty>>) -> (res: Self)
        ensures
            res@.id == id.value(),
            res@.name == name@,
            res@.belong_faculty_id == (match belong_faculty_id {
                Some(f) => Some(f.value()),
                None => None,
            }),
    {
        let belong = match belong_faculty_id {
            Some(f) => Some(f.id()),
            None => None,
        };
        Teacher { id: id.id(), name, belong_faculty_id: belong }
    }

    pub fn id(&self) -> (res: Id<Teacher>)
        ensures
            res.value() == self@.id,
    {
        Id::new(self.id)
    }

    pub fn name(&self) -> (res: &str)
        ensures
            res@ == self@.name,
    {
        self.name.as_str()
    }

    pub fn belong_faculty_id(&self) -> (res: Option<Id<Faculty>>)
        ensures
            match res {
                Some(f) => self@.belong_faculty_id == Some(f.value()),
                None => self@.belong_faculty_id.is_none(),
            },
    {
        match self.belong_faculty_id {
            Some(f) => Some(Id::new(f)),
            None => None,
        }
    }
}

} // verus!
