//! Turning the rows that a database returns into domain values: each value is
//! validated as the domain requires, and related rows are grouped under the
//! row they belong to.
use vstd::prelude::*;

use crate::domain::{
    Grade, Id, Num, RangeValidationError, Term, Year, GRADE_LOWER, GRADE_UPPER, NUM_LOWER,
    TERM_LOWER, TERM_UPPER, YEAR_LOWER, valid_grade, valid_num, valid_term, valid_year,
    document::{
        Document, DocumentFile, DocumentFileType, DocumentFileView, DocumentMetadata,
        DocumentMetadataView, DocumentView, ExamType, UnsupportedFileType, document_views,
        exam_type_of_code, file_type_of_extension, file_views,
    },
    faculty::{Faculty, FacultyView, faculty_views, major_views},
    major::{Major, MajorView},
    subject::{CourseCode, Subject, SubjectView, subject_views},
};

verus! {

// ---------------------------------------------------------------------------
// Row types
// ---------------------------------------------------------------------------

/// A faculty as stored: identifier and name.
#[derive(Debug)]
pub struct FacultyRow {
    pub id: u128,
    pub name: String,
}

/// A major as stored: identifier, name and the faculty it belongs to.
#[derive(Debug)]
pub struct MajorRow {
    pub id: u128,
    pub name: String,
    pub faculty_id: u128,
}

/// A subject as stored, with the faculty resolved through its major.
#[derive(Debug)]
pub struct SubjectRow {
    pub id: u128,
    pub name: String,
    pub course_code: String,
    pub faculty_id: u128,
    pub major_id: u128,
    pub grade: i64,
    pub term: i64,
}

/// A document as stored, with its subject's faculty, major, grade and term.
#[derive(Debug)]
pub struct DocumentRow {
    pub id: u128,
    pub faculty_id: u128,
    pub major_id: u128,
    pub subject_id: u128,
    pub year: i64,
    pub term: i64,
    pub grade: i64,
    pub teacher: String,
    pub exam_type: i64,
    pub is_answer: bool,
    pub num: i64,
}

/// A document file as stored: the document it belongs to, its type text and
/// its path.
#[derive(Debug)]
pub struct DocumentFileRow {
    pub document_id: u128,
    pub file_type: String,
    pub path: String,
}

// ---------------------------------------------------------------------------
// Errors
// ---------------------------------------------------------------------------

/// Why stored rows do not make a valid domain value.
#[derive(Debug)]
pub enum RowError {
    /// A stored file type names no file type.
    UnsupportedFileType(UnsupportedFileType),
    /// A stored number lies outside its range.
    OutOfRange(RangeValidationError),
    /// A stored exam type code names no exam type.
    InvalidExamType(i64),
    /// A stored document has no file.
    EmptyDocumentFiles,
}

/// Abstract value of a [`RowError`].
pub enum RowErrorView {
    UnsupportedFileType(Seq<char>),
    OutOfRange(RangeValidationError),
    InvalidExamType(i64),
    EmptyDocumentFiles,
}

impl View for RowError {
    type V = RowErrorView;

    open spec fn view(&self) -> RowErrorView {
        match self {
            RowError::UnsupportedFileType(u) => RowErrorView::UnsupportedFileType(u.spec_file_type()),
            RowError::OutOfRange(e) => RowErrorView::OutOfRange(*e),
            RowError::InvalidExamType(t) => RowErrorView::InvalidExamType(*t),
            RowError::EmptyDocumentFiles => RowErrorView::EmptyDocumentFiles,
        }
    }
}

// ---------------------------------------------------------------------------
// Faculties
// ---------------------------------------------------------------------------

/// The major that a row describes.
pub open spec fn major_of_row(m: MajorRow) -> MajorView {
    MajorView { id: m.id, name: m.name@, faculty_id: m.faculty_id }
}

/// The majors, in row order, that belong to the faculty `faculty_id`.
pub open spec fn majors_of_faculty(majors: Seq<MajorRow>, faculty_id: u128) -> Seq<MajorView> {
    majors.filter(|m: MajorRow| m.faculty_id == faculty_id).map_values(|m: MajorRow| major_of_row(m))
}

/// No earlier faculty row has the identifier of row `i`.
pub open spec fn first_faculty_row(rows: Seq<FacultyRow>, i: int) -> bool {
    forall|j: int| 0 <= j < i ==> #[trigger] rows[j].id != rows[i].id
}

/// The faculty that row `i` becomes: the first row with an identifier takes
/// every major of that faculty; a later row with the same identifier takes none.
pub open spec fn faculty_of_row(rows: Seq<FacultyRow>, majors: Seq<MajorRow>, i: int) -> FacultyView {
    FacultyView {
        id: rows[i].id,
        name: rows[i].name@,
        majors: if first_faculty_row(rows, i) {
            majors_of_faculty(majors, rows[i].id)
        } else {
            Seq::empty()
        },
    }
}

/// Whether an earlier row than `i` has the identifier of row `i`.
fn seen_before(rows: &[FacultyRow], i: usize) -> (res: bool)
    requires
        i < rows@.len(),
    ensures
        res == !first_faculty_row(rows@, i as int),
{
    let mut j: usize = 0;
    while j < i
        invariant
            j <= i < rows@.len(),
            forall|k: int| 0 <= k < j ==> #[trigger] rows@[k].id != rows@[i as int].id,
        decreases i - j,
    {
        if rows[j].id == rows[i].id {
            return true;
        }
        j = j + 1;
    }
    false
}

/// The majors, in row order, that belong to the faculty `faculty_id`.
fn collect_majors(majors: &[MajorRow], faculty_id: u128) -> (res: Vec<Major>)
    ensures
        major_views(res@) == majors_of_faculty(majors@, faculty_id),
{
    let ghost pred = |m: MajorRow| m.faculty_id == faculty_id;
    let ghost f = |m: MajorRow| major_of_row(m);
    let mut res: Vec<Major> = Vec::new();
    let mut k: usize = 0;
    while k < majors.len()
        invariant
            k <= majors@.len(),
            pred == (|m: MajorRow| m.faculty_id == faculty_id),
            f == (|m: MajorRow| major_of_row(m)),
            major_views(res@) == majors@.take(k as int).filter(pred).map_values(f),
        decreases majors@.len() - k,
    {
        let ghost prev = res@;
        assert(majors@.take(k + 1).drop_last() =~= majors@.take(k as int));
        reveal_with_fuel(Seq::<_>::filter, 1);
        if majors[k].faculty_id == faculty_id {
            let m = Major::new(Id::new(majors[k].id), majors[k].name.clone(), Id::new(faculty_id));
            res.push(m);
            assert(majors@.take(k + 1).filter(pred) == majors@.take(k as int).filter(pred).push(
                majors@[k as int],
            ));
            assert(major_views(res@) =~= major_views(prev).push(m@));
            assert(majors@.take(k + 1).filter(pred).map_values(f) =~= majors@.take(k as int).filter(
                pred,
            ).map_values(f).push(f(majors@[k as int])));
        } else {
            assert(majors@.take(k + 1).filter(pred) == majors@.take(k as int).filter(pred));
        }
        k = k + 1;
    }
    assert(majors@.take(majors@.len() as int) =~= majors@);
    res
}

/// The faculties that the rows describe, in row order, each with the majors
/// that belong to it.
pub fn faculties_from_rows(faculties: &[FacultyRow], majors: &[MajorRow]) -> (res: Vec<Faculty>)
    ensures
        faculty_views(res@).len() == faculties@.len(),
        forall|i: int|
            0 <= i < faculties@.len() ==> #[trigger] faculty_views(res@)[i] == faculty_of_row(
                faculties@,
                majors@,
                i,
            ),
{
    let mut res: Vec<Faculty> = Vec::new();
    let mut i: usize = 0;
    while i < faculties.len()
        invariant
            i <= faculties@.len(),
            faculty_views(res@).len() == i,
            forall|k: int|
                0 <= k < i ==> #[trigger] faculty_views(res@)[k] == faculty_of_row(
                    faculties@,
                    majors@,
                    k,
                ),
        decreases faculties@.len() - i,
    {
        let listed = if seen_before(faculties, i) {
            Vec::new()
        } else {
            collect_majors(majors, faculties[i].id)
        };
        let faculty = Faculty::new(Id::new(faculties[i].id), faculties[i].name.clone(), listed);
        assert(faculty@.majors =~= faculty_of_row(faculties@, majors@, i as int).majors);
        let ghost prev = res@;
        res.push(faculty);
        assert(faculty_views(res@) =~= faculty_views(prev).push(faculty@));
        i = i + 1;
    }
    res
}

// ---------------------------------------------------------------------------
// Subjects
// ---------------------------------------------------------------------------

/// The subject that a row describes, or the range error of its grade or term
/// (grade first).
pub open spec fn subject_of_row(row: SubjectRow) -> Result<SubjectView, RangeValidationError> {
    if !valid_grade(row.grade as int) {
        Err(
            RangeValidationError {
                actual: row.grade,
                expect_upper: Some(GRADE_UPPER),
                expect_lower: Some(GRADE_LOWER),
            },
        )
    } else if !valid_term(row.term as int) {
        Err(
            RangeValidationError {
                actual: row.term,
                expect_upper: Some(TERM_UPPER),
                expect_lower: Some(TERM_LOWER),
            },
        )
    } else {
        Ok(
            SubjectView {
                id: row.id,
                name: row.name@,
                course_code: row.course_code@,
                faculty_id: row.faculty_id,
                major_id: row.major_id,
                grade: row.grade,
                term: row.term,
            },
        )
    }
}

/// The subject that a row describes.
pub fn subject_from_row(row: &SubjectRow) -> (res: Result<Subject, RangeValidationError>)
    ensures
        match res {
            Ok(s) => subject_of_row(*row) == Ok::<SubjectView, RangeValidationError>(s@),
            Err(e) => subject_of_row(*row) == Err::<SubjectView, RangeValidationError>(e),
        },
{
    let grade = match Grade::new(row.grade) {
        Ok(g) => g,
        Err(e) => return Err(e),
    };
    let term = match Term::new(row.term) {
        Ok(t) => t,
        Err(e) => return Err(e),
    };
    let course_code = match CourseCode::new(row.course_code.clone()) {
        Ok(c) => c,
        Err(_) => vstd::pervasive::unreached(),
    };
    Ok(
        Subject::new(
            Id::new(row.id),
            row.name.clone(),
            course_code,
            Id::new(row.faculty_id),
            Id::new(row.major_id),
            grade,
            term,
        ),
    )
}

/// The subjects that the rows describe, in order, or the error of the first
/// row that describes none.
pub open spec fn subjects_of_rows(rows: Seq<SubjectRow>) -> Result<Seq<SubjectView>, RangeValidationError>
    decreases rows.len(),
{
    if rows.len() == 0 {
        Ok(Seq::empty())
    } else {
        match subjects_of_rows(rows.drop_last()) {
            Err(e) => Err(e),
            Ok(done) => match subject_of_row(rows.last()) {
                Ok(s) => Ok(done.push(s)),
                Err(e) => Err(e),
            },
        }
    }
}

/// The subjects that the rows describe, in order.
pub fn subjects_from_rows(rows: &[SubjectRow]) -> (res: Result<Vec<Subject>, RangeValidationError>)
    ensures
        match res {
            Ok(subjects) => subjects_of_rows(rows@) == Ok::<Seq<SubjectView>, RangeValidationError>(
                subject_views(subjects@),
            ),
            Err(e) => subjects_of_rows(rows@) == Err::<Seq<SubjectView>, RangeValidationError>(e),
        },
{
    let mut res: Vec<Subject> = Vec::new();
    let mut i: usize = 0;
    assert(rows@.take(0) =~= Seq::<SubjectRow>::empty());
    assert(subject_views(res@) =~= Seq::<SubjectView>::empty());
    while i < rows.len()
        invariant
            i <= rows@.len(),
            subjects_of_rows(rows@.take(i as int)) == Ok::<Seq<SubjectView>, RangeValidationError>(
                subject_views(res@),
            ),
        decreases rows@.len() - i,
    {
        assert(rows@.take(i + 1).drop_last() =~= rows@.take(i as int));
        assert(rows@.take(i + 1).last() == rows@[i as int]);
        match subject_from_row(&rows[i]) {
            Ok(s) => {
                let ghost prev = res@;
                res.push(s);
                assert(subject_views(res@) =~= subject_views(prev).push(s@));
            },
            Err(e) => {
                proof {
                    lemma_subjects_error_persists(rows@, i as int + 1);
                }
                return Err(e);
            },
        }
        i = i + 1;
    }
    assert(rows@.take(rows@.len() as int) =~= rows@);
    Ok(res)
}

/// Once a prefix of the rows fails, so do all the rows.
proof fn lemma_subjects_error_persists(rows: Seq<SubjectRow>, n: int)
    requires
        0 <= n <= rows.len(),
        subjects_of_rows(rows.take(n)) is Err,
    ensures
        subjects_of_rows(rows) == subjects_of_rows(rows.take(n)),
    decreases rows.len() - n,
{
    if n < rows.len() {
        assert(rows.take(n + 1).drop_last() =~= rows.take(n));
        lemma_subjects_error_persists(rows, n + 1);
    } else {
        assert(rows.take(n) =~= rows);
    }
}


// ---------------------------------------------------------------------------
// Documents
// ---------------------------------------------------------------------------

/// The file that a row describes, with the document it belongs to, or the
/// error of its type text.
pub open spec fn file_of_row(f: DocumentFileRow) -> Result<(u128, DocumentFileView), RowErrorView> {
    match file_type_of_extension(f.file_type@) {
        Some(t) => Ok((f.document_id, DocumentFileView { ty: t, path: f.path@ })),
        None => Err(RowErrorView::UnsupportedFileType(f.file_type@)),
    }
}

/// The files that the rows describe, in order, or the error of the first row
/// that describes none.
pub open spec fn files_of_rows(files: Seq<DocumentFileRow>) -> Result<
    Seq<(u128, DocumentFileView)>,
    RowErrorView,
>
    decreases files.len(),
{
    if files.len() == 0 {
        Ok(Seq::empty())
    } else {
        match files_of_rows(files.drop_last()) {
            Err(e) => Err(e),
            Ok(done) => match file_of_row(files.last()) {
                Ok(f) => Ok(done.push(f)),
                Err(e) => Err(e),
            },
        }
    }
}

/// The files alone, without the documents they belong to.
pub open spec fn files_only(parsed: Seq<(u128, DocumentFileView)>) -> Seq<DocumentFileView> {
    parsed.map_values(|p: (u128, DocumentFileView)| p.1)
}

/// The document that a row describes with the given files, or the first of
/// these errors, checked in this order: year, term, grade, exam type code,
/// sequence number, no file.
pub open spec fn document_of_row(row: DocumentRow, files: Seq<DocumentFileView>) -> Result<
    DocumentView,
    RowErrorView,
> {
    if !valid_year(row.year as int) {
        Err(
            RowErrorView::OutOfRange(
                RangeValidationError {
                    actual: row.year,
                    expect_upper: None,
                    expect_lower: Some(YEAR_LOWER),
                },
            ),
        )
    } else if !valid_term(row.term as int) {
        Err(
            RowErrorView::OutOfRange(
                RangeValidationError {
                    actual: row.term,
                    expect_upper: Some(TERM_UPPER),
                    expect_lower: Some(TERM_LOWER),
                },
            ),
        )
    } else if !valid_grade(row.grade as int) {
        Err(
            RowErrorView::OutOfRange(
                RangeValidationError {
                    actual: row.grade,
                    expect_upper: Some(GRADE_UPPER),
                    expect_lower: Some(GRADE_LOWER),
                },
            ),
        )
    } else if exam_type_of_code(row.exam_type).is_none() {
        Err(RowErrorView::InvalidExamType(row.exam_type))
    } else if !valid_num(row.num as int) {
        Err(
            RowErrorView::OutOfRange(
                RangeValidationError {
                    actual: row.num,
                    expect_upper: None,
                    expect_lower: Some(NUM_LOWER),
                },
            ),
        )
    } else if files.len() == 0 {
        Err(RowErrorView::EmptyDocumentFiles)
    } else {
        Ok(
            DocumentView {
                id: row.id,
                metadata: DocumentMetadataView {
                    faculty_id: row.faculty_id,
                    major_id: row.major_id,
                    year: row.year,
                    term: row.term,
                    grade: row.grade,
                    subject_id: row.subject_id,
                    teacher: row.teacher@,
                    exam_type: exam_type_of_code(row.exam_type).unwrap(),
                    is_answer: row.is_answer,
                    num: row.num,
                },
                files,
            },
        )
    }
}

/// The views of parsed files with the documents they belong to.
pub open spec fn parsed_views(parsed: Seq<(u128, DocumentFile)>) -> Seq<(u128, DocumentFileView)> {
    parsed.map_values(|p: (u128, DocumentFile)| (p.0, p.1@))
}

/// The files that the rows describe, with the document each belongs to.
fn parse_file_rows(files: &[DocumentFileRow]) -> (res: Result<Vec<(u128, DocumentFile)>, RowError>)
    ensures
        match res {
            Ok(parsed) => files_of_rows(files@) == Ok::<
                Seq<(u128, DocumentFileView)>,
                RowErrorView,
            >(parsed_views(parsed@)),
            Err(e) => files_of_rows(files@) == Err::<Seq<(u128, DocumentFileView)>, RowErrorView>(
                e@,
            ),
        },
{
    let mut res: Vec<(u128, DocumentFile)> = Vec::new();
    let mut i: usize = 0;
    assert(files@.take(0) =~= Seq::<DocumentFileRow>::empty());
    assert(parsed_views(res@) =~= Seq::<(u128, DocumentFileView)>::empty());
    while i < files.len()
        invariant
            i <= files@.len(),
            files_of_rows(files@.take(i as int)) == Ok::<
                Seq<(u128, DocumentFileView)>,
                RowErrorView,
            >(parsed_views(res@)),
        decreases files@.len() - i,
    {
        assert(files@.take(i + 1).drop_last() =~= files@.take(i as int));
        assert(files@.take(i + 1).last() == files@[i as int]);
        match DocumentFileType::parse(files[i].file_type.as_str()) {
            Ok(ty) => {
                let file = DocumentFile::new(ty, files[i].path.clone());
                let ghost prev = res@;
                res.push((files[i].document_id, file));
                assert(parsed_views(res@) =~= parsed_views(prev).push((files@[i as int].document_id, file@)));
            },
            Err(u) => {
                proof {
                    lemma_files_error_persists(files@, i as int + 1);
                }
                return Err(RowError::UnsupportedFileType(u));
            },
        }
        i = i + 1;
    }
    assert(files@.take(files@.len() as int) =~= files@);
    Ok(res)
}

/// Once a prefix of the file rows fails, so do all the file rows.
proof fn lemma_files_error_persists(files: Seq<DocumentFileRow>, n: int)
    requires
        0 <= n <= files.len(),
        files_of_rows(files.take(n)) is Err,
    ensures
        files_of_rows(files) == files_of_rows(files.take(n)),
    decreases files.len() - n,
{
    if n < files.len() {
        assert(files.take(n + 1).drop_last() =~= files.take(n));
        lemma_files_error_persists(files, n + 1);
    } else {
        assert(files.take(n) =~= files);
    }
}

/// The document that a row describes with the given files.
fn document_from_parts(row: &DocumentRow, files: Vec<DocumentFile>) -> (res: Result<Document, RowError>)
    ensures
        match res {
            Ok(d) => document_of_row(*row, file_views(files@)) == Ok::<DocumentView, RowErrorView>(d@),
            Err(e) => document_of_row(*row, file_views(files@)) == Err::<DocumentView, RowErrorView>(
                e@,
            ),
        },
{
    let year = match Year::new(row.year) {
        Ok(y) => y,
        Err(e) => return Err(RowError::OutOfRange(e)),
    };
    let term = match Term::new(row.term) {
        Ok(t) => t,
        Err(e) => return Err(RowError::OutOfRange(e)),
    };
    let grade = match Grade::new(row.grade) {
        Ok(g) => g,
        Err(e) => return Err(RowError::OutOfRange(e)),
    };
    let exam_type = match ExamType::from_int(row.exam_type) {
        Some(t) => t,
        None => return Err(RowError::InvalidExamType(row.exam_type)),
    };
    let num = match Num::new(row.num) {
        Ok(n) => n,
        Err(e) => return Err(RowError::OutOfRange(e)),
    };
    let metadata = DocumentMetadata::new(
        Id::new(row.faculty_id),
        Id::new(row.major_id),
        year,
        term,
        grade,
        Id::new(row.subject_id),
        row.teacher.clone(),
        exam_type,
        row.is_answer,
        num,
    );
    match Document::new(Id::new(row.id), metadata, files) {
        Ok(d) => Ok(d),
        Err(_) => Err(RowError::EmptyDocumentFiles),
    }
}

/// The document of one row, with all of the given file rows as its files.
pub open spec fn single_document_of_rows(row: DocumentRow, files: Seq<DocumentFileRow>) -> Result<
    DocumentView,
    RowErrorView,
> {
    match files_of_rows(files) {
        Err(e) => Err(e),
        Ok(parsed) => document_of_row(row, files_only(parsed)),
    }
}

/// The document that a row describes, whose files are the given file rows
/// (which all belong to it): the file rows are read first, then the row.
pub fn document_from_rows(row: &DocumentRow, files: &[DocumentFileRow]) -> (res: Result<
    Document,
    RowError,
>)
    ensures
        match res {
            Ok(d) => single_document_of_rows(*row, files@) == Ok::<DocumentView, RowErrorView>(d@),
            Err(e) => single_document_of_rows(*row, files@) == Err::<DocumentView, RowErrorView>(e@),
        },
{
    let parsed = match parse_file_rows(files) {
        Ok(p) => p,
        Err(e) => return Err(e),
    };
    let mut only: Vec<DocumentFile> = Vec::new();
    let mut i: usize = 0;
    while i < parsed.len()
        invariant
            i <= parsed@.len(),
            file_views(only@) =~= files_only(parsed_views(parsed@.take(i as int))),
        decreases parsed@.len() - i,
    {
        let f = parsed[i].1.clone();
        let ghost prev = only@;
        only.push(f);
        assert(parsed@.take(i + 1) =~= parsed@.take(i as int).push(parsed@[i as int]));
        assert(file_views(only@) =~= file_views(prev).push(f@));
        i = i + 1;
    }
    assert(parsed@.take(parsed@.len() as int) =~= parsed@);
    document_from_parts(row, only)
}

/// No earlier document row has the identifier of row `i`.
pub open spec fn first_document_row(rows: Seq<DocumentRow>, i: int) -> bool {
    forall|j: int| 0 <= j < i ==> #[trigger] rows[j].id != rows[i].id
}

/// The files that row `i` takes: the first row with an identifier takes every
/// file of that document, in order; a later row with the same identifier takes
/// none.
pub open spec fn files_for_row(
    rows: Seq<DocumentRow>,
    parsed: Seq<(u128, DocumentFileView)>,
    i: int,
) -> Seq<DocumentFileView> {
    if first_document_row(rows, i) {
        files_only(parsed.filter(|p: (u128, DocumentFileView)| p.0 == rows[i].id))
    } else {
        Seq::empty()
    }
}

/// The documents of the first `n` rows, in order, or the error of the first of
/// them that describes none.
pub open spec fn documents_of_first_rows(
    rows: Seq<DocumentRow>,
    parsed: Seq<(u128, DocumentFileView)>,
    n: int,
) -> Result<Seq<DocumentView>, RowErrorView>
    decreases n,
{
    if n <= 0 {
        Ok(Seq::empty())
    } else {
        match documents_of_first_rows(rows, parsed, n - 1) {
            Err(e) => Err(e),
            Ok(done) => match document_of_row(rows[n - 1], files_for_row(rows, parsed, n - 1)) {
                Ok(d) => Ok(done.push(d)),
                Err(e) => Err(e),
            },
        }
    }
}

/// The documents that the rows describe, in row order, each with its files:
/// all file rows are read first, then each document row in order.
pub open spec fn documents_of_rows(rows: Seq<DocumentRow>, files: Seq<DocumentFileRow>) -> Result<
    Seq<DocumentView>,
    RowErrorView,
> {
    match files_of_rows(files) {
        Err(e) => Err(e),
        Ok(parsed) => documents_of_first_rows(rows, parsed, rows.len() as int),
    }
}

/// Whether an earlier row than `i` has the identifier of row `i`.
fn document_seen_before(rows: &[DocumentRow], i: usize) -> (res: bool)
    requires
        i < rows@.len(),
    ensures
        res == !first_document_row(rows@, i as int),
{
    let mut j: usize = 0;
    while j < i
        invariant
            j <= i < rows@.len(),
            forall|k: int| 0 <= k < j ==> #[trigger] rows@[k].id != rows@[i as int].id,
        decreases i - j,
    {
        if rows[j].id == rows[i].id {
            return true;
        }
        j = j + 1;
    }
    false
}

/// Copies of the parsed files that belong to document `id`, in order.
fn files_of_document(parsed: &Vec<(u128, DocumentFile)>, id: u128) -> (res: Vec<DocumentFile>)
    ensures
        file_views(res@) == files_only(
            parsed_views(parsed@).filter(|p: (u128, DocumentFileView)| p.0 == id),
        ),
{
    let ghost pred = |p: (u128, DocumentFileView)| p.0 == id;
    let mut res: Vec<DocumentFile> = Vec::new();
    let mut k: usize = 0;
    while k < parsed.len()
        invariant
            k <= parsed@.len(),
            pred == (|p: (u128, DocumentFileView)| p.0 == id),
            file_views(res@) == files_only(parsed_views(parsed@.take(k as int)).filter(pred)),
        decreases parsed@.len() - k,
    {
        let ghost prev = res@;
        let ghost before = parsed_views(parsed@.take(k as int));
        let ghost after = parsed_views(parsed@.take(k + 1));
        assert(after =~= before.push((parsed@[k as int].0, parsed@[k as int].1@)));
        assert(after.drop_last() =~= before);
        reveal_with_fuel(Seq::<_>::filter, 1);
        if parsed[k].0 == id {
            let f = parsed[k].1.clone();
            res.push(f);
            assert(file_views(res@) =~= file_views(prev).push(f@));
            assert(files_only(after.filter(pred)) =~= files_only(before.filter(pred)).push(f@));
        }
        k = k + 1;
    }
    assert(parsed@.take(parsed@.len() as int) =~= parsed@);
    res
}

/// The documents that the rows describe, in row order, each with the files
/// that belong to it.
pub fn documents_from_rows(rows: &[DocumentRow], files: &[DocumentFileRow]) -> (res: Result<
    Vec<Document>,
    RowError,
>)
    ensures
        match res {
            Ok(docs) => documents_of_rows(rows@, files@) == Ok::<Seq<DocumentView>, RowErrorView>(
                document_views(docs@),
            ),
            Err(e) => documents_of_rows(rows@, files@) == Err::<Seq<DocumentView>, RowErrorView>(
                e@,
            ),
        },
{
    let parsed = match parse_file_rows(files) {
        Ok(p) => p,
        Err(e) => return Err(e),
    };
    let ghost pv = parsed_views(parsed@);
    let mut res: Vec<Document> = Vec::new();
    let mut i: usize = 0;
    assert(document_views(res@) =~= Seq::<DocumentView>::empty());
    while i < rows.len()
        invariant
            i <= rows@.len(),
            pv == parsed_views(parsed@),
            files_of_rows(files@) == Ok::<Seq<(u128, DocumentFileView)>, RowErrorView>(pv),
            documents_of_first_rows(rows@, pv, i as int) == Ok::<Seq<DocumentView>, RowErrorView>(
                document_views(res@),
            ),
        decreases rows@.len() - i,
    {
        let own = if document_seen_before(rows, i) {
            Vec::new()
        } else {
            files_of_document(&parsed, rows[i].id)
        };
        assert(file_views(own@) =~= files_for_row(rows@, pv, i as int));
        match document_from_parts(&rows[i], own) {
            Ok(d) => {
                let ghost prev = res@;
                res.push(d);
                assert(document_views(res@) =~= document_views(prev).push(d@));
            },
            Err(e) => {
                proof {
                    lemma_documents_error_persists(rows@, pv, i as int + 1);
                }
                return Err(e);
            },
        }
        i = i + 1;
    }
    Ok(res)
}

/// Once the documents of a prefix of the rows fail, so do those of all rows.
proof fn lemma_documents_error_persists(
    rows: Seq<DocumentRow>,
    parsed: Seq<(u128, DocumentFileView)>,
    n: int,
)
    requires
        0 <= n <= rows.len(),
        documents_of_first_rows(rows, parsed, n) is Err,
    ensures
        documents_of_first_rows(rows, parsed, rows.len() as int) == documents_of_first_rows(
            rows,
            parsed,
            n,
        ),
    decreases rows.len() - n,
{
    if n < rows.len() {
        lemma_documents_error_persists(rows, parsed, n + 1);
    }
}

} // verus!
