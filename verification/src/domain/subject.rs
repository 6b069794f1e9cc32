//! Subjects (lecture courses) and their course codes.
use vstd::prelude::*;

use super::{
    FormatValidationError, Grade, Id, Term, faculty::Faculty, major::Major, valid_grade,
    valid_term,
};

verus! {

/// A text equal to a lecture's course number; subjects are told apart by it.
#[derive(Debug)]
pub struct CourseCode {
    inner: String,
}

impl View for CourseCode {
    type V = Seq<char>;

    closed spec fn view(&self) -> Seq<char> {
        self.inner@
    }
}

impl CourseCode {
    /// A course code from its text. Every text is accepted.
    pub fn new(code: String) -> (res: Result<Self, FormatValidationError>)
        ensures
            res matches Ok(c) && c@ == code@,
    {
        Ok(CourseCode { inner: code })
    }

    pub fn code(&self) -> (res: &str)
        ensures
            res@ == self@,
    {
        self.inner.as_str()
    }
}

impl Clone for CourseCode {
    fn clone(&self) -> (res: Self)
        ensures
            res@ == self@,
    {
        CourseCode { inner: self.inner.clone() }
    }
}

/// Abstract value of a [`Subject`].
pub struct SubjectView {
    pub id: u128,
    pub name: Seq<char>,
    pub course_code: Seq<char>,
    pub faculty_id: u128,
    pub major_id: u128,
    pub grade: i64,
    pub term: i64,
}

#[derive(Debug)]
pub struct Subject {
    id: u128,
    name: String,
    course_code: CourseCode,
    faculty_id: u128,
    major_id: u128,
    grade: i64,
    term: i64,
}

impl View for Subject {
    type V = SubjectView;

    closed spec fn view(&self) -> SubjectView {
        SubjectView {
            id: self.id,
            name: self.name@,
            course_code: self.course_code@,
            faculty_id: self.faculty_id,
            major_id: self.major_id,
            grade: self.grade,
            term: self.term,
        }
    }
}

impl Subject {
    #[verifier::type_invariant]
    spec fn inv(self) -> bool {
        valid_grade(self.grade as int) && valid_term(self.term as int)
    }

    pub fn new(
        id: Id<Subject>,
        name: String,
        course_code: CourseCode,
        faculty_id: Id<Faculty>,
        major_id: Id<Major>,
        grade: Grade<Subject>,
        term: Term<Subject>,
    ) -> (res: Self)
        ensures
            res@ == (SubjectView {
                id: id.value(),
                name: name@,
                course_code: course_code@,
                faculty_id: faculty_id.value(),
                major_id: major_id.value(),
                grade: grade.value(),
                term: term.value(),
            }),
    {
        let g = *grade.grade();
        let t = *term.term();
        Subject {
            id: id.id(),
            name,
            course_code,
            faculty_id: faculty_id.id(),
            major_id: major_id.id(),
            grade: g,
            term: t,
        }
    }

    pub fn id(&self) -> (res: Id<Subject>)
        ensures
            res.value() == self@.id,
    {
        Id::new(self.id)
    }

    pub fn name(&self) -> (res: &str)
        ensures
            res@ == self@.name,
    {
        self.name.as_str()
    }

    pub fn course_code(&self) -> (res: &CourseCode)
        ensures
            res@ == self@.course_code,
    {
        &self.course_code
    }

    pub fn faculty_id(&self) -> (res: Id<Faculty>)
        ensures
            res.value() == self@.faculty_id,
    {
        Id::new(self.faculty_id)
    }

    pub fn major_id(&self) -> (res: Id<Major>)
        ensures
            res.value() == self@.major_id,
    {
        Id::new(self.major_id)
    }

    pub fn grade(&self) -> (res: Grade<Subject>)
        ensures
            res.value() == self@.grade,
    {
        proof {
            use_type_invariant(self);
        }
        Grade::from_valid(self.grade)
    }

    pub fn term(&self) -> (res: Term<Subject>)
        ensures
            res.value() == self@.term,
    {
        proof {
            use_type_invariant(self);
        }
        Term::from_valid(self.term)
    }
}

impl Clone for Subject {
    fn clone(&self) -> (res: Self)
        ensures
            res@ == self@,
    {
        proof {
            use_type_invariant(self);
        }
        Subject {
            id: self.id,
            name: self.name.clone(),
            course_code: self.course_code.clone(),
            faculty_id: self.faculty_id,
            major_id: self.major_id,
            grade: self.grade,
            term: self.term,
        }
    }
}

} // verus!

verus! {

/// The views of a sequence of subjects.
pub open spec fn subject_views(subjects: Seq<Subject>) -> Seq<SubjectView> {
    subjects.map_values(|s: Subject| s@)
}

/// Copies of `subjects`, in order.
pub fn clone_subjects(subjects: &[Subject]) -> (res: Vec<Subject>)
    ensures
        subject_views(res@) == subject_views(subjects@),
{
    let mut res: Vec<Subject> = Vec::new();
    let mut i: usize = 0;
    while i < subjects.len()
        invariant
            i <= subjects@.len(),
            subject_views(res@) == subject_views(subjects@.take(i as int)),
        decreases subjects@.len() - i,
    {
        let s = subjects[i].clone();
        let ghost prev = res@;
        res.push(s);
        assert(subjects@.take(i + 1) == subjects@.take(i as int).push(subjects@[i as int]));
        assert(subject_views(res@) =~= subject_views(prev).push(subjects@[i as int]@));
        assert(subject_views(subjects@.take(i + 1)) =~= subject_views(subjects@.take(i as int)).push(
            subjects@[i as int]@,
        ));
        i = i + 1;
    }
    assert(subjects@.take(subjects@.len() as int) =~= subjects@);
    res
}

} // verus!
