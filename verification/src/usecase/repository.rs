//! What the use cases ask of a repository: search options and update
//! contents, with the exact meaning of each search.
use vstd::prelude::*;

use crate::domain::{
    Grade, Id, Term, Year,
    document::{Document, DocumentMetadata, DocumentView, ExamType},
    faculty::Faculty,
    major::Major,
    subject::{CourseCode, Subject, SubjectView, subject_views},
};
use crate::text::str_eq;

verus! {

/// Search for the documents of one subject, further narrowed by each
/// condition that is given (all given conditions must hold).
#[derive(Debug)]
pub struct SearchDocumentOption {
    pub subject_id: Id<Subject>,
    pub year: Option<Year<DocumentMetadata>>,
    pub teacher: Option<String>,
    pub exam_type: Option<ExamType>,
    pub is_answer: Option<bool>,
}

impl SearchDocumentOption {
    /// The search for all documents of `subject_id`.
    pub fn minimal(subject_id: Id<Subject>) -> (res: Self)
        ensures
            res.subject_id == subject_id,
            res.year.is_none(),
            res.teacher.is_none(),
            res.exam_type.is_none(),
            res.is_answer.is_none(),
    {
        SearchDocumentOption {
            subject_id,
            year: None,
            teacher: None,
            exam_type: None,
            is_answer: None,
        }
    }

    /// Whether a document is found by this search.
    pub open spec fn accepts(&self, d: DocumentView) -> bool {
        &&& d.metadata.subject_id == self.subject_id.value()
        &&& (self.year matches Some(y) ==> d.metadata.year == y.value())
        &&& (self.teacher matches Some(t) ==> d.metadata.teacher == t@)
        &&& (self.exam_type matches Some(e) ==> d.metadata.exam_type == e)
        &&& (self.is_answer matches Some(a) ==> d.metadata.is_answer == a)
    }

    /// Whether `document` is found by this search.
    pub fn matches(&self, document: &Document) -> (res: bool)
        ensures
            res == self.accepts(document@),
            res ==> document@.metadata.subject_id == self.subject_id.value(),
            res ==> (self.year matches Some(y) ==> document@.metadata.year == y.value()),
            res ==> (self.teacher matches Some(t) ==> document@.metadata.teacher == t@),
            res ==> (self.exam_type matches Some(e) ==> document@.metadata.exam_type == e),
            res ==> (self.is_answer matches Some(a) ==> document@.metadata.is_answer == a),
            (document@.metadata.subject_id == self.subject_id.value() && (self.year is None
                || document@.metadata.year == self.year->0.value()) && (self.teacher is None
                || document@.metadata.teacher == self.teacher->0@) && (self.exam_type is None
                || document@.metadata.exam_type == self.exam_type->0) && (self.is_answer is None
                || document@.metadata.is_answer == self.is_answer->0)) ==> res,
    {
        let meta = document.metadata();
        if meta.subject_id().id() != self.subject_id.id() {
            return false;
        }
        let year_ok = match &self.year {
            Some(y) => *y.year() == *meta.year().year(),
            None => true,
        };
        let teacher_ok = match &self.teacher {
            Some(t) => str_eq(t.as_str(), meta.teacher()),
            None => true,
        };
        let exam_type_ok = match &self.exam_type {
            Some(e) => *e == *meta.exam_type(),
            None => true,
        };
        let is_answer_ok = match &self.is_answer {
            Some(a) => *a == *meta.is_answer(),
            None => true,
        };
        year_ok && teacher_ok && exam_type_ok && is_answer_ok
    }
}

/// A document search finds exactly the documents of its subject that meet
/// every given condition: each document it finds is of the subject, and has
/// the year, teacher, exam type and answer flag asked for (for a `false`
/// answer flag as for `true`); every document that meets them all is found.
pub proof fn law_document_search_finds_what_was_asked(
    option: SearchDocumentOption,
    documents: Seq<DocumentView>,
    found: Seq<DocumentView>,
)
    requires
        found == documents.filter(|d: DocumentView| option.accepts(d)),
    ensures
        forall|i: int|
            0 <= i < found.len() ==> {
                &&& (#[trigger] found[i]).metadata.subject_id == option.subject_id.value()
                &&& option.year matches Some(y) ==> found[i].metadata.year == y.value()
                &&& option.teacher matches Some(t) ==> found[i].metadata.teacher == t@
                &&& option.exam_type matches Some(e) ==> found[i].metadata.exam_type == e
                &&& option.is_answer matches Some(a) ==> found[i].metadata.is_answer == a
            },
        forall|i: int|
            0 <= i < documents.len() && (#[trigger] documents[i]).metadata.subject_id
                == option.subject_id.value() && (option.year is None || documents[i].metadata.year
                == option.year->0.value()) && (option.teacher is None
                || documents[i].metadata.teacher == option.teacher->0@) && (option.exam_type is None
                || documents[i].metadata.exam_type == option.exam_type->0) && (option.is_answer is None
                || documents[i].metadata.is_answer == option.is_answer->0) ==> found.contains(
                documents[i],
            ),
{
    documents.filter_lemma(|d: DocumentView| option.accepts(d));
}

/// The new content of a subject; everything but its identifier.
#[derive(Debug)]
pub struct UpdateSubjectContent {
    pub name: String,
    pub course_code: CourseCode,
    pub faculty_id: Id<Faculty>,
    pub major_id: Id<Major>,
    pub grade: Grade<Subject>,
    pub term: Term<Subject>,
}

/// Search for subjects: each condition that is given must hold; with no
/// condition every subject is found.
#[derive(Debug)]
pub struct SearchSubjectOption {
    pub subject_id: Option<Id<Subject>>,
    pub name: Option<String>,
    pub faculty_id: Option<Id<Faculty>>,
    pub major_id: Option<Id<Major>>,
    pub grade: Option<Grade<Subject>>,
    pub term: Option<Term<Subject>>,
}

impl Default for SearchSubjectOption {
    fn default() -> (res: Self)
        ensures
            res.is_unrestricted(),
    {
        SearchSubjectOption {
            subject_id: None,
            name: None,
            faculty_id: None,
            major_id: None,
            grade: None,
            term: None,
        }
    }
}

impl SearchSubjectOption {
    /// No condition is given.
    pub open spec fn is_unrestricted(&self) -> bool {
        &&& self.subject_id.is_none()
        &&& self.name.is_none()
        &&& self.faculty_id.is_none()
        &&& self.major_id.is_none()
        &&& self.grade.is_none()
        &&& self.term.is_none()
    }

    /// The search for the subject with identifier `subject_id`.
    pub fn by_id(subject_id: Id<Subject>) -> (res: Self)
        ensures
            res.subject_id == Some(subject_id),
            res.name.is_none(),
            res.faculty_id.is_none(),
            res.major_id.is_none(),
            res.grade.is_none(),
            res.term.is_none(),
    {
        SearchSubjectOption {
            subject_id: Some(subject_id),
            name: None,
            faculty_id: None,
            major_id: None,
            grade: None,
            term: None,
        }
    }

    /// Whether a subject is found by this search.
    pub open spec fn accepts(&self, s: SubjectView) -> bool {
        &&& (self.subject_id matches Some(id) ==> s.id == id.value())
        &&& (self.name matches Some(n) ==> s.name == n@)
        &&& (self.faculty_id matches Some(f) ==> s.faculty_id == f.value())
        &&& (self.major_id matches Some(m) ==> s.major_id == m.value())
        &&& (self.grade matches Some(g) ==> s.grade == g.value())
        &&& (self.term matches Some(t) ==> s.term == t.value())
    }

    /// Whether `subject` is found by this search.
    pub fn matches(&self, subject: &Subject) -> (res: bool)
        ensures
            res == self.accepts(subject@),
    {
        let id_ok = match &self.subject_id {
            Some(id) => id.id() == subject.id().id(),
            None => true,
        };
        let name_ok = match &self.name {
            Some(n) => str_eq(n.as_str(), subject.name()),
            None => true,
        };
        let faculty_ok = match &self.faculty_id {
            Some(f) => f.id() == subject.faculty_id().id(),
            None => true,
        };
        let major_ok = match &self.major_id {
            Some(m) => m.id() == subject.major_id().id(),
            None => true,
        };
        let grade_ok = match &self.grade {
            Some(g) => *g.grade() == *subject.grade().grade(),
            None => true,
        };
        let term_ok = match &self.term {
            Some(t) => *t.term() == *subject.term().term(),
            None => true,
        };
        id_ok && name_ok && faculty_ok && major_ok && grade_ok && term_ok
    }

    /// The subjects, in order, that this search finds among `subjects`.
    pub fn filter(&self, subjects: &[Subject]) -> (res: Vec<Subject>)
        ensures
            subject_views(res@) == subject_views(subjects@).filter(|s: SubjectView| self.accepts(s)),
    {
        let ghost pred = |s: SubjectView| self.accepts(s);
        let mut res: Vec<Subject> = Vec::new();
        let mut i: usize = 0;
        while i < subjects.len()
            invariant
                i <= subjects@.len(),
                pred == (|s: SubjectView| self.accepts(s)),
                subject_views(res@) == subject_views(subjects@.take(i as int)).filter(pred),
            decreases subjects@.len() - i,
        {
            let ghost prev = res@;
            let ghost before = subject_views(subjects@.take(i as int));
            let ghost after = subject_views(subjects@.take(i + 1));
            assert(after =~= before.push(subjects@[i as int]@));
            assert(after.drop_last() =~= before);
            reveal_with_fuel(Seq::<_>::filter, 1);
            if self.matches(&subjects[i]) {
                let s = subjects[i].clone();
                res.push(s);
                assert(subject_views(res@) =~= subject_views(prev).push(subjects@[i as int]@));
            }
            i = i + 1;
        }
        assert(subjects@.take(subjects@.len() as int) =~= subjects@);
        res
    }
}

/// A search with no condition finds every subject.
pub proof fn lemma_unrestricted_search_finds_all(option: SearchSubjectOption, subjects: Seq<SubjectView>)
    requires
        option.is_unrestricted(),
    ensures
        subjects.filter(|s: SubjectView| option.accepts(s)) == subjects,
    decreases subjects.len(),
{
    reveal_with_fuel(Seq::<_>::filter, 1);
    if subjects.len() > 0 {
        lemma_unrestricted_search_finds_all(option, subjects.drop_last());
        assert(subjects.drop_last().push(subjects.last()) =~= subjects);
    } else {
        assert(subjects.filter(|s: SubjectView| option.accepts(s)) =~= subjects);
    }
}

} // verus!
