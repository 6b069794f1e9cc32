//! The upload form of `POST /docs` and the plain-text views of the catalogue:
//! how a multipart upload is read into a document to store, field by field.
use vstd::prelude::*;

use crate::domain::{
    Grade, Id, Num, RangeValidationError, Term, Year, range_error_text, uuid_hyphenated_text,
    document::{
        DocumentFileType, DocumentMetadata, DocumentMetadataView, ExamType, ParseExamTypeError,
        exam_type_of_name, file_type_of_extension,
    },
    faculty::Faculty,
    major::Major,
    subject::Subject,
    valid_grade, valid_num, valid_term, valid_year, GRADE_LOWER, GRADE_UPPER, NUM_LOWER,
    TERM_LOWER, TERM_UPPER, YEAR_LOWER,
};
use crate::text::{ascii_lower, concat, is_ascii_text, lowercase_of, to_lowercase};
use crate::usecase::app::store_document::{StoreDocumentInput, StoreDocumentInputFile};

verus! {

// ---------------------------------------------------------------------------
// Errors
// ---------------------------------------------------------------------------

/// Why a request to the upload API fails: the request is wrong (with the
/// message to send back), or something failed inside the server.
#[derive(Debug)]
pub enum AppError {
    BadRequest(String),
    Internal,
}

impl AppError {
    pub fn bad_request(message: String) -> (res: Self)
        ensures
            res matches AppError::BadRequest(m) && m@ == message@,
    {
        AppError::BadRequest(message)
    }

    /// This error is a bad request that reads `message`.
    pub open spec fn is_bad_request(&self, message: Seq<char>) -> bool {
        self matches AppError::BadRequest(m) && m@ == message
    }
}

// ---------------------------------------------------------------------------
// Metadata
// ---------------------------------------------------------------------------

/// The `metadata` field of an upload, as sent.
#[derive(Debug)]
pub struct DocumentMetadataDto {
    pub faculty: u128,
    pub major: u128,
    pub year: i64,
    pub term: i64,
    pub grade: i64,
    pub subject: u128,
    pub teacher: String,
    pub examtype: String,
    pub isanswer: bool,
    pub num: i64,
}

/// Why sent metadata is refused.
#[derive(Debug)]
pub enum MetadataError {
    Range(RangeValidationError),
    ExamType(ParseExamTypeError),
}

impl MetadataError {
    /// The text of the error.
    pub open spec fn text(&self) -> Seq<char> {
        match self {
            MetadataError::Range(e) => range_error_text(*e),
            MetadataError::ExamType(_) => "invalid examtype"@,
        }
    }

    pub fn to_string(&self) -> (res: String)
        ensures
            res@ == self.text(),
    {
        match self {
            MetadataError::Range(e) => e.to_string(),
            MetadataError::ExamType(e) => e.to_string(),
        }
    }
}

/// The refusal of sent metadata, checked in this order: year, term, grade,
/// exam type name, sequence number; none when every value is accepted.
pub open spec fn metadata_refusal(dto: DocumentMetadataDto) -> Option<Seq<char>> {
    if !valid_year(dto.year as int) {
        Some(
            range_error_text(
                RangeValidationError {
                    actual: dto.year,
                    expect_upper: None,
                    expect_lower: Some(YEAR_LOWER),
                },
            ),
        )
    } else if !valid_term(dto.term as int) {
        Some(
            range_error_text(
                RangeValidationError {
                    actual: dto.term,
                    expect_upper: Some(TERM_UPPER),
                    expect_lower: Some(TERM_LOWER),
                },
            ),
        )
    } else if !valid_grade(dto.grade as int) {
        Some(
            range_error_text(
                RangeValidationError {
                    actual: dto.grade,
                    expect_upper: Some(GRADE_UPPER),
                    expect_lower: Some(GRADE_LOWER),
                },
            ),
        )
    } else if exam_type_of_name(dto.examtype@).is_none() {
        Some("invalid examtype"@)
    } else if !valid_num(dto.num as int) {
        Some(
            range_error_text(
                RangeValidationError {
                    actual: dto.num,
                    expect_upper: None,
                    expect_lower: Some(NUM_LOWER),
                },
            ),
        )
    } else {
        None
    }
}

/// The metadata that accepted sent values describe.
pub open spec fn metadata_of(dto: DocumentMetadataDto) -> DocumentMetadataView {
    DocumentMetadataView {
        faculty_id: dto.faculty,
        major_id: dto.major,
        year: dto.year,
        term: dto.term,
        grade: dto.grade,
        subject_id: dto.subject,
        teacher: dto.teacher@,
        exam_type: exam_type_of_name(dto.examtype@).unwrap(),
        is_answer: dto.isanswer,
        num: dto.num,
    }
}

/// Metadata accepted from an upload keeps every sent value in its own field:
/// the sent faculty, major and subject identifiers, year, term, grade,
/// teacher, answer flag and sequence number, and the exam type that the sent
/// name names.
pub proof fn law_accepted_metadata_keeps_sent_values(dto: DocumentMetadataDto)
    requires
        metadata_refusal(dto) is None,
    ensures
        metadata_of(dto).faculty_id == dto.faculty,
        metadata_of(dto).major_id == dto.major,
        metadata_of(dto).subject_id == dto.subject,
        metadata_of(dto).year == dto.year,
        metadata_of(dto).term == dto.term,
        metadata_of(dto).grade == dto.grade,
        metadata_of(dto).teacher == dto.teacher@,
        exam_type_of_name(dto.examtype@) == Some(metadata_of(dto).exam_type),
        metadata_of(dto).is_answer == dto.isanswer,
        metadata_of(dto).num == dto.num,
        valid_year(dto.year as int),
        valid_term(dto.term as int),
        valid_grade(dto.grade as int),
        valid_num(dto.num as int),
{
}

impl DocumentMetadataDto {
    pub fn into_domain(self) -> (res: Result<DocumentMetadata, MetadataError>)
        ensures
            match res {
                Ok(m) => metadata_refusal(self) is None && m@ == metadata_of(self),
                Err(e) => metadata_refusal(self) == Some(e.text()),
            },
            res matches Ok(m) ==> {
                &&& m@.faculty_id == self.faculty
                &&& m@.major_id == self.major
                &&& m@.subject_id == self.subject
                &&& m@.year == self.year
                &&& m@.term == self.term
                &&& m@.grade == self.grade
                &&& m@.teacher == self.teacher@
                &&& exam_type_of_name(self.examtype@) == Some(m@.exam_type)
                &&& m@.is_answer == self.isanswer
                &&& m@.num == self.num
            },
    {
        let year = match Year::new(self.year) {
            Ok(y) => y,
            Err(e) => return Err(MetadataError::Range(e)),
        };
        let term = match Term::new(self.term) {
            Ok(t) => t,
            Err(e) => return Err(MetadataError::Range(e)),
        };
        let grade = match Grade::new(self.grade) {
            Ok(g) => g,
            Err(e) => return Err(MetadataError::Range(e)),
        };
        let exam_type = match ExamType::parse(self.examtype.as_str()) {
            Ok(t) => t,
            Err(e) => return Err(MetadataError::ExamType(e)),
        };
        let num = match Num::new(self.num) {
            Ok(n) => n,
            Err(e) => return Err(MetadataError::Range(e)),
        };
        Ok(
            DocumentMetadata::new(
                Id::new(self.faculty),
                Id::new(self.major),
                year,
                term,
                grade,
                Id::new(self.subject),
                self.teacher,
                exam_type,
                self.isanswer,
                num,
            ),
        )
    }
}

// ---------------------------------------------------------------------------
// File types
// ---------------------------------------------------------------------------

/// The text after the last `.` of a file name; the whole name when it has no
/// `.`.
pub open spec fn after_last_dot(name: Seq<char>) -> Seq<char>
    decreases name.len(),
{
    if name.len() == 0 {
        name
    } else if name.last() == '.' {
        Seq::empty()
    } else {
        after_last_dot(name.drop_last()).push(name.last())
    }
}

/// The type of an uploaded file, from its name: the text after its last `.`,
/// in lower case, read as an extension; a text file when that names no type.
pub open spec fn file_type_of_name(name: Seq<char>) -> DocumentFileType {
    match file_type_of_extension(lowercase_of(after_last_dot(name))) {
        Some(t) => t,
        None => DocumentFileType::Txt,
    }
}

/// The last `k` characters of `name` hold no `.`, and the one before them is
/// a `.` or there is none: then they are the text after the last `.`.
proof fn lemma_after_last_dot(name: Seq<char>, start: int)
    requires
        0 <= start <= name.len(),
        forall|k: int| start <= k < name.len() ==> #[trigger] name[k] != '.',
        start == 0 || name[start - 1] == '.',
    ensures
        after_last_dot(name) == name.subrange(start, name.len() as int),
    decreases name.len(),
{
    if name.len() == 0 {
    } else if start == name.len() {
        assert(name.subrange(start, name.len() as int) =~= Seq::<char>::empty());
    } else {
        let shorter = name.drop_last();
        assert forall|k: int| start <= k < shorter.len() implies #[trigger] shorter[k] != '.' by {
            assert(shorter[k] == name[k]);
        }
        if start > 0 {
            assert(shorter[start - 1] == name[start - 1]);
        }
        lemma_after_last_dot(shorter, start);
        assert(name.subrange(start, name.len() as int) =~= shorter.subrange(
            start,
            shorter.len() as int,
        ).push(name.last()));
    }
}

/// The text after the last `.` of a file name.
pub fn extension_of(file_name: &str) -> (res: String)
    ensures
        res@ == after_last_dot(file_name@),
{
    let len = file_name.unicode_len();
    let mut start = len;
    while start > 0
        invariant
            start <= len,
            len == file_name@.len(),
            forall|k: int| start <= k < len ==> #[trigger] file_name@[k] != '.',
        ensures
            start <= len,
            forall|k: int| start <= k < len ==> #[trigger] file_name@[k] != '.',
            start == 0 || file_name@[start - 1] == '.',
        decreases start,
    {
        if file_name.get_char(start - 1) == '.' {
            break;
        }
        start = start - 1;
    }
    proof {
        lemma_after_last_dot(file_name@, start as int);
    }
    file_name.substring_char(start, len).to_owned()
}

/// The type named by an extension already in lower case; a text file when it
/// names no type.
pub open spec fn file_type_or_text(lower: Seq<char>) -> DocumentFileType {
    match file_type_of_extension(lower) {
        Some(t) => t,
        None => DocumentFileType::Txt,
    }
}

/// The type of an uploaded file, from its name.
pub fn file_type_from_file_name(file_name: &str) -> (res: DocumentFileType)
    ensures
        res == file_type_of_name(file_name@),
        is_ascii_text(after_last_dot(file_name@)) ==> res == file_type_or_text(
            after_last_dot(file_name@).map_values(|c: char| ascii_lower(c)),
        ),
{
    let extension = extension_of(file_name);
    let lower = to_lowercase(extension.as_str());
    match DocumentFileType::parse(lower.as_str()) {
        Ok(t) => t,
        Err(_) => DocumentFileType::Txt,
    }
}

// ---------------------------------------------------------------------------
// Reading an upload
// ---------------------------------------------------------------------------

/// An upload being read, field by field: the last `metadata` field seen, and
/// every file seen, in order.
#[derive(Debug)]
pub struct DocumentUpload {
    metadata: Option<DocumentMetadataDto>,
    files: Vec<StoreDocumentInputFile>,
}

/// Abstract value of a received file: its type and bytes.
pub open spec fn received_files(files: Seq<StoreDocumentInputFile>) -> Seq<(DocumentFileType, Seq<u8>)> {
    files.map_values(|f: StoreDocumentInputFile| (f.file_type, f.content@))
}

impl DocumentUpload {
    pub closed spec fn metadata_view(&self) -> Option<DocumentMetadataDto> {
        self.metadata
    }

    pub closed spec fn files_view(&self) -> Seq<(DocumentFileType, Seq<u8>)> {
        received_files(self.files@)
    }

    /// An upload with no field read yet.
    pub fn new() -> (res: Self)
        ensures
            res.metadata_view().is_none(),
            res.files_view() == Seq::<(DocumentFileType, Seq<u8>)>::empty(),
    {
        let res = DocumentUpload { metadata: None, files: Vec::new() };
        assert(res.files_view() =~= Seq::<(DocumentFileType, Seq<u8>)>::empty());
        res
    }

    /// Reads a `metadata` field; a later one replaces an earlier one.
    pub fn add_metadata(&mut self, metadata: DocumentMetadataDto)
        ensures
            final(self).metadata_view() == Some(metadata),
            final(self).files_view() == old(self).files_view(),
    {
        self.metadata = Some(metadata);
    }

    /// Reads a file field, whose type is told by its file name.
    pub fn add_file(&mut self, file_name: &str, content: Vec<u8>)
        ensures
            final(self).metadata_view() == old(self).metadata_view(),
            final(self).files_view() == old(self).files_view().push(
                (file_type_of_name(file_name@), content@),
            ),
    {
        let file_type = file_type_from_file_name(file_name);
        let ghost prev = self.files@;
        let ghost c = content@;
        self.files.push(StoreDocumentInputFile { file_type, content });
        assert(received_files(self.files@) =~= received_files(prev).push((file_type, c)));
    }

    /// The document to store, once every field is read: refused when no
    /// `metadata` field came, when the metadata is refused, or when no file
    /// came (checked in this order).
    pub fn finish(self) -> (res: Result<StoreDocumentInput, AppError>)
        ensures
            match res {
                Ok(input) => {
                    &&& self.metadata_view() matches Some(m) && metadata_refusal(m) is None
                        && input.metadata@ == metadata_of(m)
                    &&& self.files_view().len() > 0
                    &&& received_files(input.files@) == self.files_view()
                },
                Err(e) => match self.metadata_view() {
                    None => e.is_bad_request("metadata field is required"@),
                    Some(m) => match metadata_refusal(m) {
                        Some(text) => e.is_bad_request("invalid metadata value: "@ + text),
                        None => self.files_view().len() == 0 && e.is_bad_request(
                            "at least one file is required"@,
                        ),
                    },
                },
            },
    {
        let dto = match self.metadata {
            Some(m) => m,
            None => return Err(AppError::bad_request("metadata field is required".to_owned())),
        };
        let metadata = match dto.into_domain() {
            Ok(m) => m,
            Err(e) => {
                let text = e.to_string();
                return Err(AppError::bad_request(concat("invalid metadata value: ", text.as_str())));
            },
        };
        if self.files.len() == 0 {
            return Err(AppError::bad_request("at least one file is required".to_owned()));
        }
        Ok(StoreDocumentInput { metadata, files: self.files })
    }
}

// ---------------------------------------------------------------------------
// Plain-text views of the catalogue
// ---------------------------------------------------------------------------

/// A major with its identifier written out.
#[derive(Debug)]
pub struct MajorDto {
    pub id: String,
    pub name: String,
}

/// A faculty with its identifier written out.
#[derive(Debug)]
pub struct FacultyDto {
    pub id: String,
    pub name: String,
    pub majors: Vec<MajorDto>,
}

/// A subject with its identifiers written out.
#[derive(Debug)]
pub struct SubjectDto {
    pub id: String,
    pub name: String,
    pub faculty: String,
    pub major: String,
    pub grade: i64,
    pub term: i64,
}

impl MajorDto {
    pub fn from_domain(m: &Major) -> (res: Self)
        ensures
            res.id@ == uuid_hyphenated_text(m@.id),
            res.name@ == m@.name,
    {
        MajorDto { id: m.id().hyphenated(), name: m.name().to_owned() }
    }
}

impl FacultyDto {
    pub fn from_domain(f: Faculty) -> (res: Self)
        ensures
            res.id@ == uuid_hyphenated_text(f@.id),
            res.name@ == f@.name,
            res.majors@.len() == f@.majors.len(),
            forall|i: int|
                0 <= i < f@.majors.len() ==> (#[trigger] res.majors@[i]).id@ == uuid_hyphenated_text(
                    f@.majors[i].id,
                ) && res.majors@[i].name@ == f@.majors[i].name,
    {
        let majors = f.majors();
        let mut dtos: Vec<MajorDto> = Vec::new();
        let mut i: usize = 0;
        while i < majors.len()
            invariant
                i <= majors@.len(),
                crate::domain::faculty::major_views(majors@) == f@.majors,
                dtos@.len() == i,
                forall|j: int|
                    0 <= j < i ==> (#[trigger] dtos@[j]).id@ == uuid_hyphenated_text(f@.majors[j].id)
                        && dtos@[j].name@ == f@.majors[j].name,
            decreases majors@.len() - i,
        {
            assert(crate::domain::faculty::major_views(majors@)[i as int] == majors@[i as int]@);
            dtos.push(MajorDto::from_domain(&majors[i]));
            i = i + 1;
        }
        FacultyDto { id: f.id().hyphenated(), name: f.name().to_owned(), majors: dtos }
    }
}

impl SubjectDto {
    pub fn from_domain(s: Subject) -> (res: Self)
        ensures
            res.id@ == uuid_hyphenated_text(s@.id),
            res.name@ == s@.name,
            res.faculty@ == uuid_hyphenated_text(s@.faculty_id),
            res.major@ == uuid_hyphenated_text(s@.major_id),
            res.grade == s@.grade,
            res.term == s@.term,
    {
        SubjectDto {
            id: s.id().hyphenated(),
            name: s.name().to_owned(),
            faculty: s.faculty_id().hyphenated(),
            major: s.major_id().hyphenated(),
            grade: *s.grade().grade(),
            term: *s.term().term(),
        }
    }
}

} // verus!
