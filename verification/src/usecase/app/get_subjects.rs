//! Listing the subjects of a faculty, narrowed by major, grade and term.
use vstd::prelude::*;

use crate::domain::subject::{Subject, SubjectView, subject_views};

verus! {

/// Listing the subjects of a faculty, narrowed by major, grade and term.
#[derive(Debug)]
pub struct GetSubjectsUseCase<I> {
    repository: I,
}

impl<I> GetSubjectsUseCase<I> {
    pub closed spec fn spec_repository(&self) -> I {
        self.repository
    }

    pub fn new(repository: I) -> (res: Self)
        ensures
            res.spec_repository() == repository,
    {
        GetSubjectsUseCase { repository }
    }

    pub fn repository(&self) -> (res: &I)
        ensures
            *res == self.spec_repository(),
    {
        &self.repository
    }
}


/// Which subjects to list: those of one faculty, narrowed by each condition
/// that is given.
#[derive(Debug, Clone, Copy)]
pub struct GetSubjectsOption {
    pub faculty_id: u128,
    pub major_id: Option<u128>,
    pub grade: Option<i64>,
    pub term: Option<i64>,
}

impl GetSubjectsOption {
    /// Whether a subject is listed.
    pub open spec fn accepts(&self, s: SubjectView) -> bool {
        &&& s.faculty_id == self.faculty_id
        &&& (self.major_id matches Some(m) ==> s.major_id == m)
        &&& (self.grade matches Some(g) ==> s.grade == g)
        &&& (self.term matches Some(t) ==> s.term == t)
    }

    /// Whether `subject` is listed.
    pub fn matches(&self, subject: &Subject) -> (res: bool)
        ensures
            res == self.accepts(subject@),
            res ==> subject@.faculty_id == self.faculty_id,
            res ==> (self.major_id matches Some(m) ==> subject@.major_id == m),
            res ==> (self.grade matches Some(g) ==> subject@.grade == g),
            res ==> (self.term matches Some(t) ==> subject@.term == t),
            (subject@.faculty_id == self.faculty_id && (self.major_id is None || subject@.major_id
                == self.major_id->0) && (self.grade is None || subject@.grade == self.grade->0) && (
            self.term is None || subject@.term == self.term->0)) ==> res,
    {
        let faculty_ok = self.faculty_id == subject.faculty_id().id();
        let major_ok = match self.major_id {
            Some(m) => m == subject.major_id().id(),
            None => true,
        };
        let grade_ok = match self.grade {
            Some(g) => g == *subject.grade().grade(),
            None => true,
        };
        let term_ok = match self.term {
            Some(t) => t == *subject.term().term(),
            None => true,
        };
        faculty_ok && major_ok && grade_ok && term_ok
    }
}

/// A subject listing holds exactly the subjects of the faculty asked for that
/// meet every given condition: each listed subject is of that faculty and has
/// the major, grade and term asked for; every subject that meets them all is
/// listed.
pub proof fn law_subject_listing_holds_what_was_asked(
    option: GetSubjectsOption,
    subjects: Seq<SubjectView>,
    listed: Seq<SubjectView>,
)
    requires
        listed == subjects.filter(|s: SubjectView| option.accepts(s)),
    ensures
        forall|i: int|
            0 <= i < listed.len() ==> {
                &&& (#[trigger] listed[i]).faculty_id == option.faculty_id
                &&& option.major_id matches Some(m) ==> listed[i].major_id == m
                &&& option.grade matches Some(g) ==> listed[i].grade == g
                &&& option.term matches Some(t) ==> listed[i].term == t
            },
        forall|i: int|
            0 <= i < subjects.len() && (#[trigger] subjects[i]).faculty_id == option.faculty_id && (
            option.major_id is None || subjects[i].major_id == option.major_id->0) && (option.grade is None
                || subjects[i].grade == option.grade->0) && (option.term is None || subjects[i].term
                == option.term->0) ==> listed.contains(subjects[i]),
{
    subjects.filter_lemma(|s: SubjectView| option.accepts(s));
}

impl<I> GetSubjectsUseCase<I> {
    /// The subjects, in order, that `option` lists among `subjects`.
    pub fn select(option: &GetSubjectsOption, subjects: Vec<Subject>) -> (res: Vec<Subject>)
        ensures
            subject_views(res@) == subject_views(subjects@).filter(|s: SubjectView| option.accepts(s)),
    {
        let ghost pred = |s: SubjectView| option.accepts(s);
        let mut res: Vec<Subject> = Vec::new();
        let mut i: usize = 0;
        while i < subjects.len()
            invariant
                i <= subjects@.len(),
                pred == (|s: SubjectView| option.accepts(s)),
                subject_views(res@) == subject_views(subjects@.take(i as int)).filter(pred),
            decreases subjects@.len() - i,
        {
            let ghost prev = res@;
            let ghost before = subject_views(subjects@.take(i as int));
            let ghost after = subject_views(subjects@.take(i + 1));
            assert(after =~= before.push(subjects@[i as int]@));
            assert(after.drop_last() =~= before);
            reveal_with_fuel(Seq::<_>::filter, 1);
            if option.matches(&subjects[i]) {
                let s = subjects[i].clone();
                res.push(s);
                assert(subject_views(res@) =~= subject_views(prev).push(subjects@[i as int]@));
            }
            i = i + 1;
        }
        assert(subjects@.take(subjects@.len() as int) =~= subjects@);
        res
    }
}

} // verus!
