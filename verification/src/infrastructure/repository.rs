//! An in-memory repository: the reference behaviour of storing documents and
//! keeping the faculty and subject catalogue.
use vstd::prelude::*;

use crate::domain::{
    Id,
    document::{Document, DocumentView, document_views},
    faculty::{Faculty, FacultyView, clone_faculties, faculty_views},
    subject::{Subject, SubjectView, clone_subjects, subject_views},
};
use crate::usecase::repository::{SearchDocumentOption, SearchSubjectOption, UpdateSubjectContent};
use crate::domain::{is_uuid_v4, uuid_hyphenated_text};
use crate::text::path_join_of;
use super::local_filesystem::fresh_file_path;
use super::catalog::{
    example_catalog, example_faculties, faculty_named, major_ids_fresh, majors_belong,
};

verus! {

/// Why a repository operation was refused.
#[derive(Clone, Copy, Debug, PartialEq, Eq, Structural)]
pub enum RepositoryError {
    /// A subject with the identifier being created is already stored.
    SubjectAlreadyExists,
    /// No subject with the identifier being updated is stored.
    SubjectNotFound,
    /// No subject with the identifier being deleted is stored.
    SubjectDoesNotExist,
}

impl RepositoryError {
    pub fn message(&self) -> (res: &'static str)
        ensures
            res@ == match *self {
                RepositoryError::SubjectAlreadyExists => "subject already exists"@,
                RepositoryError::SubjectNotFound => "subject not found"@,
                RepositoryError::SubjectDoesNotExist => "subject does not exist"@,
            },
    {
        match self {
            RepositoryError::SubjectAlreadyExists => "subject already exists",
            RepositoryError::SubjectNotFound => "subject not found",
            RepositoryError::SubjectDoesNotExist => "subject does not exist",
        }
    }
}

/// Some stored subject has identifier `id`.
pub open spec fn has_subject_id(subjects: Seq<SubjectView>, id: u128) -> bool {
    exists|i: int| 0 <= i < subjects.len() && #[trigger] subjects[i].id == id
}

/// No two stored subjects share an identifier.
pub open spec fn distinct_subject_ids(subjects: Seq<SubjectView>) -> bool {
    forall|i: int, j: int|
        0 <= i < subjects.len() && 0 <= j < subjects.len() && i != j ==> #[trigger] subjects[i].id
            != #[trigger] subjects[j].id
}

/// `i` is the position of the first subject with identifier `id`.
pub open spec fn first_with_subject_id(subjects: Seq<SubjectView>, id: u128, i: int) -> bool {
    &&& 0 <= i < subjects.len()
    &&& subjects[i].id == id
    &&& forall|j: int| 0 <= j < i ==> #[trigger] subjects[j].id != id
}

/// `i` is the position of the first document with identifier `id`.
pub open spec fn first_with_document_id(documents: Seq<DocumentView>, id: u128, i: int) -> bool {
    &&& 0 <= i < documents.len()
    &&& documents[i].id == id
    &&& forall|j: int| 0 <= j < i ==> #[trigger] documents[j].id != id
}

/// The subject with identifier `id` and the given content.
pub open spec fn subject_with_content(id: u128, content: UpdateSubjectContent) -> SubjectView {
    SubjectView {
        id,
        name: content.name@,
        course_code: content.course_code@,
        faculty_id: content.faculty_id.value(),
        major_id: content.major_id.value(),
        grade: content.grade.value(),
        term: content.term.value(),
    }
}

/// The reference repository: every document, faculty and subject is held in
/// memory; document files are kept under `save_dir`.
#[derive(Debug)]
pub struct ExampleRepository {
    documents: Vec<Document>,
    faculties: Vec<Faculty>,
    subjects: Vec<Subject>,
    save_dir: String,
}

impl ExampleRepository {
    pub closed spec fn documents_view(&self) -> Seq<DocumentView> {
        document_views(self.documents@)
    }

    pub closed spec fn faculties_view(&self) -> Seq<FacultyView> {
        faculty_views(self.faculties@)
    }

    pub closed spec fn subjects_view(&self) -> Seq<SubjectView> {
        subject_views(self.subjects@)
    }

    pub closed spec fn save_dir_view(&self) -> Seq<char> {
        self.save_dir@
    }

    /// Subjects have distinct identifiers and every major belongs to the
    /// faculty that lists it.
    pub open spec fn wf(&self) -> bool {
        &&& distinct_subject_ids(self.subjects_view())
        &&& majors_belong(self.faculties_view())
    }

    /// A repository with no document and no subject, the example faculties,
    /// and files kept under `save_dir` (a directory that already exists, given
    /// by its canonical path).
    pub fn new(save_dir: String) -> (res: Self)
        ensures
            res.wf(),
            res.documents_view() == Seq::<DocumentView>::empty(),
            res.subjects_view() == Seq::<SubjectView>::empty(),
            res.faculties_view().len() == example_catalog().len(),
            forall|i: int|
                0 <= i < example_catalog().len() ==> faculty_named(
                    #[trigger] res.faculties_view()[i],
                    example_catalog()[i].0,
                    example_catalog()[i].1,
                ),
            res.save_dir_view() == save_dir@,
            major_ids_fresh(res.faculties_view()),
    {
        let faculties = example_faculties();
        let subjects = Self::example_subjects();
        let res = ExampleRepository { documents: Vec::new(), faculties, subjects, save_dir };
        assert(res.documents_view() =~= Seq::<DocumentView>::empty());
        assert(res.subjects_view() =~= Seq::<SubjectView>::empty());
        res
    }

    /// The subjects a new repository starts with: none.
    fn example_subjects() -> (res: Vec<Subject>)
        ensures
            res@.len() == 0,
    {
        Vec::new()
    }

    /// The directory under which document files are kept.
    pub fn save_dir(&self) -> (res: &str)
        ensures
            res@ == self.save_dir_view(),
    {
        self.save_dir.as_str()
    }

    /// Where the next document file goes: a fresh random UUID under the save
    /// directory.
    pub fn new_file_path(&self) -> (res: String)
        ensures
            exists|u: u128|
                {
                    &&& is_uuid_v4(u)
                    &&& res@ == path_join_of(self.save_dir_view(), uuid_hyphenated_text(u))
                    &&& (self.save_dir_view().len() > 0 && self.save_dir_view().last() != '/')
                        ==> res@ == self.save_dir_view() + "/"@ + uuid_hyphenated_text(u)
                },
    {
        fresh_file_path(self.save_dir.as_str())
    }

    /// The first stored document with identifier `document_id`, if any.
    pub fn find_document_by_id(&self, document_id: &Id<Document>) -> (res: Option<Document>)
        ensures
            match res {
                Some(d) => exists|i: int|
                    first_with_document_id(self.documents_view(), document_id.value(), i)
                        && d@ == #[trigger] self.documents_view()[i],
                None => forall|i: int|
                    0 <= i < self.documents_view().len() ==> #[trigger] self.documents_view()[i].id
                        != document_id.value(),
            },
    {
        let mut i: usize = 0;
        while i < self.documents.len()
            invariant
                i <= self.documents@.len(),
                self.documents_view().len() == self.documents@.len(),
                forall|j: int| 0 <= j < i ==> #[trigger] self.documents_view()[j].id != document_id.value(),
            decreases self.documents@.len() - i,
        {
            if self.documents[i].id().id() == document_id.id() {
                let found = self.documents[i].clone();
                assert(first_with_document_id(self.documents_view(), document_id.value(), i as int));
                return Some(found);
            }
            i = i + 1;
        }
        None
    }

    /// The stored documents, in order, that `option` finds.
    pub fn search_documents(&self, option: &SearchDocumentOption) -> (res: Vec<Document>)
        ensures
            document_views(res@) == self.documents_view().filter(|d: DocumentView| option.accepts(d)),
    {
        let ghost pred = |d: DocumentView| option.accepts(d);
        let mut res: Vec<Document> = Vec::new();
        let mut i: usize = 0;
        while i < self.documents.len()
            invariant
                i <= self.documents@.len(),
                pred == (|d: DocumentView| option.accepts(d)),
                document_views(res@) == document_views(self.documents@.take(i as int)).filter(pred),
            decreases self.documents@.len() - i,
        {
            let ghost prev = res@;
            let ghost before = document_views(self.documents@.take(i as int));
            let ghost after = document_views(self.documents@.take(i + 1));
            assert(after =~= before.push(self.documents@[i as int]@));
            assert(after.drop_last() =~= before);
            reveal_with_fuel(Seq::<_>::filter, 1);
            if option.matches(&self.documents[i]) {
                let d = self.documents[i].clone();
                res.push(d);
                assert(document_views(res@) =~= document_views(prev).push(self.documents@[i as int]@));
            }
            i = i + 1;
        }
        assert(self.documents@.take(self.documents@.len() as int) =~= self.documents@);
        res
    }

    /// Stores `document` after the documents already stored.
    pub fn store_document(&mut self, document: Document)
        requires
            old(self).wf(),
        ensures
            final(self).wf(),
            final(self).documents_view() == old(self).documents_view().push(document@),
            final(self).subjects_view() == old(self).subjects_view(),
            final(self).faculties_view() == old(self).faculties_view(),
            final(self).save_dir_view() == old(self).save_dir_view(),
    {
        let ghost prev = self.documents@;
        self.documents.push(document);
        assert(self.documents_view() =~= document_views(prev).push(document@));
    }

    /// Copies of every faculty, in order.
    pub fn list_faculties(&self) -> (res: Vec<Faculty>)
        ensures
            faculty_views(res@) == self.faculties_view(),
    {
        clone_faculties(self.faculties.as_slice())
    }

    /// Copies of every subject, in order.
    pub fn list_subjects(&self) -> (res: Vec<Subject>)
        ensures
            subject_views(res@) == self.subjects_view(),
    {
        clone_subjects(self.subjects.as_slice())
    }

    /// The stored subjects, in order, that `option` finds.
    pub fn search_subjects(&self, option: &SearchSubjectOption) -> (res: Vec<Subject>)
        ensures
            subject_views(res@) == self.subjects_view().filter(|s: SubjectView| option.accepts(s)),
    {
        option.filter(self.subjects.as_slice())
    }

    /// Stores `subject`, unless a subject with its identifier is already
    /// stored.
    pub fn create_subject(&mut self, subject: Subject) -> (res: Result<(), RepositoryError>)
        requires
            old(self).wf(),
        ensures
            final(self).wf(),
            final(self).documents_view() == old(self).documents_view(),
            final(self).faculties_view() == old(self).faculties_view(),
            final(self).save_dir_view() == old(self).save_dir_view(),
            match res {
                Ok(()) => {
                    &&& !has_subject_id(old(self).subjects_view(), subject@.id)
                    &&& final(self).subjects_view() == old(self).subjects_view().push(subject@)
                },
                Err(e) => {
                    &&& has_subject_id(old(self).subjects_view(), subject@.id)
                    &&& e == RepositoryError::SubjectAlreadyExists
                    &&& final(self).subjects_view() == old(self).subjects_view()
                },
            },
    {
        let mut i: usize = 0;
        while i < self.subjects.len()
            invariant
                i <= self.subjects@.len(),
                self.subjects_view().len() == self.subjects@.len(),
                *self == *old(self),
                old(self).wf(),
                forall|j: int| 0 <= j < i ==> #[trigger] self.subjects_view()[j].id != subject@.id,
            decreases self.subjects@.len() - i,
        {
            if self.subjects[i].id().id() == subject.id().id() {
                assert(self.subjects_view()[i as int].id == subject@.id);
                return Err(RepositoryError::SubjectAlreadyExists);
            }
            i = i + 1;
        }
        let ghost prev = self.subjects@;
        self.subjects.push(subject);
        assert(self.subjects_view() =~= subject_views(prev).push(subject@));
        Ok(())
    }

    /// Replaces the content of the subject with identifier `subject_id`, keeping
    /// that identifier, and returns the subject as it now is.
    pub fn update_subject(&mut self, subject_id: Id<Subject>, content: UpdateSubjectContent) -> (res:
        Result<Subject, RepositoryError>)
        requires
            old(self).wf(),
        ensures
            final(self).wf(),
            final(self).documents_view() == old(self).documents_view(),
            final(self).faculties_view() == old(self).faculties_view(),
            final(self).save_dir_view() == old(self).save_dir_view(),
            match res {
                Ok(updated) => exists|i: int|
                    {
                        &&& first_with_subject_id(old(self).subjects_view(), subject_id.value(), i)
                        &&& updated@ == subject_with_content(subject_id.value(), content)
                        &&& #[trigger] final(self).subjects_view() == old(self).subjects_view().update(
                            i,
                            updated@,
                        )
                    },
                Err(e) => {
                    &&& !has_subject_id(old(self).subjects_view(), subject_id.value())
                    &&& e == RepositoryError::SubjectNotFound
                    &&& final(self).subjects_view() == old(self).subjects_view()
                },
            },
    {
        let mut i: usize = 0;
        while i < self.subjects.len()
            invariant
                i <= self.subjects@.len(),
                self.subjects_view().len() == self.subjects@.len(),
                *self == *old(self),
                old(self).wf(),
                forall|j: int| 0 <= j < i ==> #[trigger] self.subjects_view()[j].id != subject_id.value(),
            decreases self.subjects@.len() - i,
        {
            if self.subjects[i].id().id() == subject_id.id() {
                let ghost prev = self.subjects@;
                let ghost pos = i as int;
                let stored_id = self.subjects[i].id();
                let updated = Subject::new(
                    stored_id,
                    content.name,
                    content.course_code,
                    content.faculty_id,
                    content.major_id,
                    content.grade,
                    content.term,
                );
                let copy = updated.clone();
                self.subjects.set(i, updated);
                assert(self.subjects_view() =~= subject_views(prev).update(pos, copy@));
                assert(first_with_subject_id(subject_views(prev), subject_id.value(), pos));
                assert(distinct_subject_ids(self.subjects_view())) by {
                    assert forall|a: int, b: int|
                        0 <= a < self.subjects_view().len() && 0 <= b < self.subjects_view().len()
                            && a != b implies #[trigger] self.subjects_view()[a].id
                        != #[trigger] self.subjects_view()[b].id by {
                        assert(subject_views(prev)[a].id == self.subjects_view()[a].id);
                        assert(subject_views(prev)[b].id == self.subjects_view()[b].id);
                    }
                }
                return Ok(copy);
            }
            i = i + 1;
        }
        Err(RepositoryError::SubjectNotFound)
    }

    /// Removes the subject with identifier `subject_id` and returns it.
    pub fn delete_subject(&mut self, subject_id: Id<Subject>) -> (res: Result<Subject, RepositoryError>)
        requires
            old(self).wf(),
        ensures
            final(self).wf(),
            final(self).documents_view() == old(self).documents_view(),
            final(self).faculties_view() == old(self).faculties_view(),
            final(self).save_dir_view() == old(self).save_dir_view(),
            match res {
                Ok(removed) => exists|i: int|
                    {
                        &&& first_with_subject_id(old(self).subjects_view(), subject_id.value(), i)
                        &&& removed@ == old(self).subjects_view()[i]
                        &&& #[trigger] final(self).subjects_view() == old(self).subjects_view().remove(i)
                    },
                Err(e) => {
                    &&& !has_subject_id(old(self).subjects_view(), subject_id.value())
                    &&& e == RepositoryError::SubjectDoesNotExist
                    &&& final(self).subjects_view() == old(self).subjects_view()
                },
            },
    {
        let mut i: usize = 0;
        while i < self.subjects.len()
            invariant
                i <= self.subjects@.len(),
                self.subjects_view().len() == self.subjects@.len(),
                *self == *old(self),
                old(self).wf(),
                forall|j: int| 0 <= j < i ==> #[trigger] self.subjects_view()[j].id != subject_id.value(),
            decreases self.subjects@.len() - i,
        {
            if self.subjects[i].id().id() == subject_id.id() {
                let ghost prev = self.subjects@;
                let ghost pos = i as int;
                let removed = self.subjects.remove(i);
                assert(self.subjects_view() =~= subject_views(prev).remove(pos));
                assert(first_with_subject_id(subject_views(prev), subject_id.value(), pos));
                assert(distinct_subject_ids(self.subjects_view())) by {
                    assert forall|a: int, b: int|
                        0 <= a < self.subjects_view().len() && 0 <= b < self.subjects_view().len()
                            && a != b implies #[trigger] self.subjects_view()[a].id
                        != #[trigger] self.subjects_view()[b].id by {
                        let pa = if a < pos { a } else { a + 1 };
                        let pb = if b < pos { b } else { b + 1 };
                        assert(subject_views(prev)[pa].id == self.subjects_view()[a].id);
                        assert(subject_views(prev)[pb].id == self.subjects_view()[b].id);
                    }
                }
                return Ok(removed);
            }
            i = i + 1;
        }
        Err(RepositoryError::SubjectDoesNotExist)
    }
}

} // verus!

verus! {

/// A search that accepts none of `subjects` finds nothing among them.
proof fn lemma_filter_none_accepted(subjects: Seq<SubjectView>, pred: spec_fn(SubjectView) -> bool)
    requires
        forall|i: int| 0 <= i < subjects.len() ==> !pred(#[trigger] subjects[i]),
    ensures
        subjects.filter(pred) == Seq::<SubjectView>::empty(),
    decreases subjects.len(),
{
    reveal_with_fuel(Seq::<_>::filter, 1);
    if subjects.len() > 0 {
        lemma_filter_none_accepted(subjects.drop_last(), pred);
        assert(!pred(subjects[subjects.len() - 1]));
    }
    assert(subjects.filter(pred) =~= Seq::<SubjectView>::empty());
}

/// The search for exactly the subject with identifier `id`.
pub open spec fn searches_only_id(option: SearchSubjectOption, id: u128) -> bool {
    &&& option.subject_id matches Some(sid) && sid.value() == id
    &&& option.name.is_none()
    &&& option.faculty_id.is_none()
    &&& option.major_id.is_none()
    &&& option.grade.is_none()
    &&& option.term.is_none()
}

/// Searching the subjects by the identifier of exactly one of them finds that
/// subject alone.
proof fn lemma_search_by_id_finds_one(
    subjects: Seq<SubjectView>,
    option: SearchSubjectOption,
    i: int,
)
    requires
        distinct_subject_ids(subjects),
        0 <= i < subjects.len(),
        searches_only_id(option, subjects[i].id),
    ensures
        subjects.filter(|s: SubjectView| option.accepts(s)) == seq![subjects[i]],
    decreases subjects.len(),
{
    let pred = |s: SubjectView| option.accepts(s);
    reveal_with_fuel(Seq::<_>::filter, 1);
    let last = subjects.len() - 1;
    if i == last {
        assert forall|k: int| 0 <= k < subjects.drop_last().len() implies !pred(
            #[trigger] subjects.drop_last()[k],
        ) by {
            assert(subjects[k].id != subjects[i].id);
        }
        lemma_filter_none_accepted(subjects.drop_last(), pred);
        assert(subjects.filter(pred) =~= seq![subjects[i]]);
    } else {
        assert(distinct_subject_ids(subjects.drop_last()));
        lemma_search_by_id_finds_one(subjects.drop_last(), option, i);
        assert(subjects[last].id != subjects[i].id);
        assert(!pred(subjects[last]));
    }
}

/// Read after create: once a subject is created in a store whose identifiers
/// are distinct, searching by its identifier finds that subject and nothing
/// else.
pub proof fn law_created_subject_is_found(
    subjects: Seq<SubjectView>,
    created: SubjectView,
    option: SearchSubjectOption,
)
    requires
        distinct_subject_ids(subjects),
        !has_subject_id(subjects, created.id),
        searches_only_id(option, created.id),
    ensures
        distinct_subject_ids(subjects.push(created)),
        subjects.push(created).filter(|s: SubjectView| option.accepts(s)) == seq![created],
{
    let after = subjects.push(created);
    assert forall|a: int, b: int|
        0 <= a < after.len() && 0 <= b < after.len() && a != b implies #[trigger] after[a].id
        != #[trigger] after[b].id by {
        if a == subjects.len() {
            assert(subjects[b].id != created.id);
        } else if b == subjects.len() {
            assert(subjects[a].id != created.id);
        }
    }
    lemma_search_by_id_finds_one(after, option, subjects.len() as int);
}

/// Delete undoes create: in a store where the identifier is new, the subject
/// just created is the one that deleting by its identifier finds, returns and
/// removes, which leaves the store as it was.
pub proof fn law_delete_undoes_create(subjects: Seq<SubjectView>, created: SubjectView, i: int)
    requires
        !has_subject_id(subjects, created.id),
        first_with_subject_id(subjects.push(created), created.id, i),
    ensures
        i == subjects.len(),
        subjects.push(created)[i] == created,
        subjects.push(created).remove(i) == subjects,
{
    if i < subjects.len() {
        assert(subjects.push(created)[i] == subjects[i]);
    }
    assert(subjects.push(created).remove(i) =~= subjects);
}

/// Read after update: in a store whose identifiers are distinct, the subject
/// that an update rewrote is found by its identifier with its new content,
/// and alone.
pub proof fn law_updated_subject_is_found(
    subjects: Seq<SubjectView>,
    i: int,
    content: UpdateSubjectContent,
    option: SearchSubjectOption,
)
    requires
        distinct_subject_ids(subjects),
        0 <= i < subjects.len(),
        searches_only_id(option, subjects[i].id),
    ensures
        subjects.update(i, subject_with_content(subjects[i].id, content)).filter(
            |s: SubjectView| option.accepts(s),
        ) == seq![subject_with_content(subjects[i].id, content)],
{
    let after = subjects.update(i, subject_with_content(subjects[i].id, content));
    assert forall|a: int, b: int|
        0 <= a < after.len() && 0 <= b < after.len() && a != b implies #[trigger] after[a].id
        != #[trigger] after[b].id by {
        assert(after[a].id == subjects[a].id);
        assert(after[b].id == subjects[b].id);
    }
    lemma_search_by_id_finds_one(after, option, i);
}

/// A deleted subject is gone: in a store whose identifiers are distinct, after
/// removing the subject at `i` no subject has its identifier.
pub proof fn law_deleted_subject_is_gone(subjects: Seq<SubjectView>, i: int)
    requires
        distinct_subject_ids(subjects),
        0 <= i < subjects.len(),
    ensures
        !has_subject_id(subjects.remove(i), subjects[i].id),
{
    let after = subjects.remove(i);
    if has_subject_id(after, subjects[i].id) {
        let k = choose|k: int| 0 <= k < after.len() && #[trigger] after[k].id == subjects[i].id;
        let orig = if k < i { k } else { k + 1 };
        assert(after[k] == subjects[orig]);
    }
}

/// Read after store: a document stored under an identifier that no stored
/// document has is the one that looking up that identifier finds.
pub proof fn law_stored_document_is_found(documents: Seq<DocumentView>, stored: DocumentView)
    requires
        forall|i: int| 0 <= i < documents.len() ==> #[trigger] documents[i].id != stored.id,
    ensures
        first_with_document_id(documents.push(stored), stored.id, documents.len() as int),
        documents.push(stored)[documents.len() as int] == stored,
{
    assert forall|j: int| 0 <= j < documents.len() implies #[trigger] documents.push(stored)[j].id
        != stored.id by {
        assert(documents.push(stored)[j] == documents[j]);
    }
}

} // verus!
