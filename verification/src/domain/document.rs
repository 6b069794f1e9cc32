//! Documents: uploaded exam papers with their metadata and files.
use vstd::prelude::*;

use super::{
    Grade, Id, Num, Term, Year, faculty::Faculty, major::Major,
    subject::Subject, valid_grade, valid_num, valid_term, valid_year,
};
use crate::text::{concat3, str_eq};

verus! {

// ---------------------------------------------------------------------------
// Errors
// ---------------------------------------------------------------------------

/// A file type that the archive does not accept; holds the rejected text.
#[derive(Debug)]
pub struct UnsupportedFileType(String);

impl Clone for UnsupportedFileType {
    fn clone(&self) -> (res: Self)
        ensures
            res.spec_file_type() == self.spec_file_type(),
    {
        UnsupportedFileType(self.0.clone())
    }
}

impl UnsupportedFileType {
    pub closed spec fn spec_file_type(&self) -> Seq<char> {
        self.0@
    }

    pub fn new(file_type: &str) -> (res: Self)
        ensures
            res.spec_file_type() == file_type@,
    {
        UnsupportedFileType(file_type.to_owned())
    }

    /// The rejected file type text.
    pub fn file_type(&self) -> (res: &str)
        ensures
            res@ == self.spec_file_type(),
    {
        self.0.as_str()
    }

    /// ``file type `<text>` is unsupported``
    pub fn to_string(&self) -> (res: String)
        ensures
            res@ == "file type `"@ + self.spec_file_type() + "` is unsupported"@,
    {
        concat3("file type `", self.0.as_str(), "` is unsupported")
    }
}

/// An exam type text that names no exam type.
#[derive(Clone, Copy, Debug)]
pub struct ParseExamTypeError;

impl ParseExamTypeError {
    /// `invalid examtype`
    pub fn to_string(&self) -> (res: String)
        ensures
            res@ == "invalid examtype"@,
    {
        "invalid examtype".to_owned()
    }
}

/// A document was given no file.
#[derive(Clone, Copy, Debug)]
pub struct EmptyDocumentFiles;

impl EmptyDocumentFiles {
    /// `must have at least one document file`
    pub fn to_string(&self) -> (res: String)
        ensures
            res@ == "must have at least one document file"@,
    {
        "must have at least one document file".to_owned()
    }
}

// ---------------------------------------------------------------------------
// Exam type
// ---------------------------------------------------------------------------

#[derive(Clone, Copy, Debug, PartialEq, Eq, Structural, Hash)]
pub enum ExamType {
    Quiz,
    MidTerm,
    FinalTerm,
    Other,
}

/// The stored integer code of each exam type.
pub open spec fn exam_type_code(t: ExamType) -> i64 {
    match t {
        ExamType::Quiz => 0,
        ExamType::MidTerm => 1,
        ExamType::FinalTerm => 2,
        ExamType::Other => 3,
    }
}

/// The exam type with a stored integer code, if any.
pub open spec fn exam_type_of_code(t: i64) -> Option<ExamType> {
    if t == 0 {
        Some(ExamType::Quiz)
    } else if t == 1 {
        Some(ExamType::MidTerm)
    } else if t == 2 {
        Some(ExamType::FinalTerm)
    } else if t == 3 {
        Some(ExamType::Other)
    } else {
        None
    }
}

/// The exam type named by a text, if any: `quiz`, `midterm`, `final` or
/// `finalterm`, `other`.
pub open spec fn exam_type_of_name(s: Seq<char>) -> Option<ExamType> {
    if s == "quiz"@ {
        Some(ExamType::Quiz)
    } else if s == "midterm"@ {
        Some(ExamType::MidTerm)
    } else if s == "final"@ || s == "finalterm"@ {
        Some(ExamType::FinalTerm)
    } else if s == "other"@ {
        Some(ExamType::Other)
    } else {
        None
    }
}

/// The name under which each exam type is written out.
pub open spec fn exam_type_name(t: ExamType) -> Seq<char> {
    match t {
        ExamType::Quiz => "quiz"@,
        ExamType::MidTerm => "midterm"@,
        ExamType::FinalTerm => "final"@,
        ExamType::Other => "other"@,
    }
}

impl ExamType {
    pub fn from_int(t: i64) -> (res: Option<ExamType>)
        ensures
            res == exam_type_of_code(t),
    {
        match t {
            0 => Some(ExamType::Quiz),
            1 => Some(ExamType::MidTerm),
            2 => Some(ExamType::FinalTerm),
            3 => Some(ExamType::Other),
            _ => None,
        }
    }

    pub fn to_int(self) -> (res: i64)
        ensures
            res == exam_type_code(self),
    {
        match self {
            ExamType::Quiz => 0,
            ExamType::MidTerm => 1,
            ExamType::FinalTerm => 2,
            ExamType::Other => 3,
        }
    }

    /// Reads an exam type from its name.
    pub fn parse(s: &str) -> (res: Result<ExamType, ParseExamTypeError>)
        ensures
            match res {
                Ok(t) => exam_type_of_name(s@) == Some(t),
                Err(_) => exam_type_of_name(s@).is_none(),
            },
    {
        if str_eq(s, "quiz") {
            Ok(ExamType::Quiz)
        } else if str_eq(s, "midterm") {
            Ok(ExamType::MidTerm)
        } else if str_eq(s, "final") || str_eq(s, "finalterm") {
            Ok(ExamType::FinalTerm)
        } else if str_eq(s, "other") {
            Ok(ExamType::Other)
        } else {
            Err(ParseExamTypeError)
        }
    }

    /// The name under which this exam type is written out.
    pub fn name(self) -> (res: &'static str)
        ensures
            res@ == exam_type_name(self),
    {
        match self {
            ExamType::Quiz => "quiz",
            ExamType::MidTerm => "midterm",
            ExamType::FinalTerm => "final",
            ExamType::Other => "other",
        }
    }
}

impl core::str::FromStr for ExamType {
    type Err = ParseExamTypeError;

    /// Same as [`ExamType::parse`].
    fn from_str(s: &str) -> (res: Result<Self, Self::Err>)
        ensures
            match res {
                Ok(t) => exam_type_of_name(s@) == Some(t),
                Err(_) => exam_type_of_name(s@).is_none(),
            },
    {
        ExamType::parse(s)
    }
}

/// Each exam type survives being stored as its integer code.
pub proof fn lemma_exam_type_code_roundtrip(t: ExamType)
    ensures
        exam_type_of_code(exam_type_code(t)) == Some(t),
{
}

/// A code is read as an exam type exactly when it is that exam type's code.
pub proof fn lemma_exam_type_code_exact(code: i64, t: ExamType)
    ensures
        exam_type_of_code(code) == Some(t) <==> exam_type_code(t) == code,
{
}

/// The name of each exam type reads back as that exam type.
pub proof fn lemma_exam_type_name_roundtrip(t: ExamType)
    ensures
        exam_type_of_name(exam_type_name(t)) == Some(t),
{
    reveal_strlit("quiz");
    reveal_strlit("midterm");
    reveal_strlit("final");
    reveal_strlit("finalterm");
    reveal_strlit("other");
    assert("quiz"@.len() == 4);
    assert("midterm"@.len() == 7);
    assert("final"@.len() == 5);
    assert("finalterm"@.len() == 9);
    assert("other"@.len() == 5);
    assert("final"@[0] != "other"@[0]);
}

// ---------------------------------------------------------------------------
// Document file type
// ---------------------------------------------------------------------------

#[derive(Clone, Copy, Debug, PartialEq, Eq, Structural, Hash)]
pub enum DocumentFileType {
    Jpeg,
    Webp,
    Png,
    Doc,
    Docx,
    Pdf,
    Txt,
    Markdown,
    Typst,
    Tex,
}

/// The file type named by an extension, if any.
pub open spec fn file_type_of_extension(s: Seq<char>) -> Option<DocumentFileType> {
    if s == "jpg"@ || s == "jpe"@ || s == "jpeg"@ {
        Some(DocumentFileType::Jpeg)
    } else if s == "webp"@ {
        Some(DocumentFileType::Webp)
    } else if s == "png"@ {
        Some(DocumentFileType::Png)
    } else if s == "doc"@ {
        Some(DocumentFileType::Doc)
    } else if s == "docx"@ {
        Some(DocumentFileType::Docx)
    } else if s == "pdf"@ {
        Some(DocumentFileType::Pdf)
    } else if s == "txt"@ {
        Some(DocumentFileType::Txt)
    } else if s == "md"@ {
        Some(DocumentFileType::Markdown)
    } else if s == "typ"@ {
        Some(DocumentFileType::Typst)
    } else if s == "tex"@ {
        Some(DocumentFileType::Tex)
    } else {
        None
    }
}

/// The extension under which each file type is written out.
pub open spec fn file_type_extension(t: DocumentFileType) -> Seq<char> {
    match t {
        DocumentFileType::Jpeg => "jpeg"@,
        DocumentFileType::Webp => "webp"@,
        DocumentFileType::Png => "png"@,
        DocumentFileType::Doc => "doc"@,
        DocumentFileType::Docx => "docx"@,
        DocumentFileType::Pdf => "pdf"@,
        DocumentFileType::Txt => "txt"@,
        DocumentFileType::Markdown => "md"@,
        DocumentFileType::Typst => "typ"@,
        DocumentFileType::Tex => "tex"@,
    }
}

impl DocumentFileType {
    /// Reads a file type from its extension.
    pub fn parse(s: &str) -> (res: Result<DocumentFileType, UnsupportedFileType>)
        ensures
            match res {
                Ok(t) => file_type_of_extension(s@) == Some(t),
                Err(e) => file_type_of_extension(s@).is_none() && e.spec_file_type() == s@,
            },
    {
        if str_eq(s, "jpg") || str_eq(s, "jpe") || str_eq(s, "jpeg") {
            Ok(DocumentFileType::Jpeg)
        } else if str_eq(s, "webp") {
            Ok(DocumentFileType::Webp)
        } else if str_eq(s, "png") {
            Ok(DocumentFileType::Png)
        } else if str_eq(s, "doc") {
            Ok(DocumentFileType::Doc)
        } else if str_eq(s, "docx") {
            Ok(DocumentFileType::Docx)
        } else if str_eq(s, "pdf") {
            Ok(DocumentFileType::Pdf)
        } else if str_eq(s, "txt") {
            Ok(DocumentFileType::Txt)
        } else if str_eq(s, "md") {
            Ok(DocumentFileType::Markdown)
        } else if str_eq(s, "typ") {
            Ok(DocumentFileType::Typst)
        } else if str_eq(s, "tex") {
            Ok(DocumentFileType::Tex)
        } else {
            Err(UnsupportedFileType::new(s))
        }
    }

    /// The extension under which this file type is written out.
    pub fn extension(&self) -> (res: &'static str)
        ensures
            res@ == file_type_extension(*self),
    {
        match self {
            DocumentFileType::Jpeg => "jpeg",
            DocumentFileType::Webp => "webp",
            DocumentFileType::Png => "png",
            DocumentFileType::Doc => "doc",
            DocumentFileType::Docx => "docx",
            DocumentFileType::Pdf => "pdf",
            DocumentFileType::Txt => "txt",
            DocumentFileType::Markdown => "md",
            DocumentFileType::Typst => "typ",
            DocumentFileType::Tex => "tex",
        }
    }

    /// The extension under which this file type is written out, as a `String`.
    pub fn to_string(&self) -> (res: String)
        ensures
            res@ == file_type_extension(*self),
    {
        self.extension().to_owned()
    }
}

impl core::str::FromStr for DocumentFileType {
    type Err = UnsupportedFileType;

    /// Same as [`DocumentFileType::parse`].
    fn from_str(s: &str) -> (res: Result<Self, Self::Err>)
        ensures
            match res {
                Ok(t) => file_type_of_extension(s@) == Some(t),
                Err(e) => file_type_of_extension(s@).is_none() && e.spec_file_type() == s@,
            },
    {
        DocumentFileType::parse(s)
    }
}

/// The extension of each file type reads back as that file type.
pub proof fn lemma_file_type_extension_roundtrip(t: DocumentFileType)
    ensures
        file_type_of_extension(file_type_extension(t)) == Some(t),
{
    reveal_strlit("jpg");
    reveal_strlit("jpe");
    reveal_strlit("jpeg");
    reveal_strlit("webp");
    reveal_strlit("png");
    reveal_strlit("doc");
    reveal_strlit("docx");
    reveal_strlit("pdf");
    reveal_strlit("txt");
    reveal_strlit("md");
    reveal_strlit("typ");
    reveal_strlit("tex");
    assert("jpg"@ =~= seq!['j', 'p', 'g']);
    assert("jpe"@ =~= seq!['j', 'p', 'e']);
    assert("jpeg"@ =~= seq!['j', 'p', 'e', 'g']);
    assert("webp"@ =~= seq!['w', 'e', 'b', 'p']);
    assert("png"@ =~= seq!['p', 'n', 'g']);
    assert("doc"@ =~= seq!['d', 'o', 'c']);
    assert("docx"@ =~= seq!['d', 'o', 'c', 'x']);
    assert("pdf"@ =~= seq!['p', 'd', 'f']);
    assert("txt"@ =~= seq!['t', 'x', 't']);
    assert("md"@ =~= seq!['m', 'd']);
    assert("typ"@ =~= seq!['t', 'y', 'p']);
    assert("tex"@ =~= seq!['t', 'e', 'x']);
}

} // verus!

verus! {

// ---------------------------------------------------------------------------
// Document metadata
// ---------------------------------------------------------------------------

/// Abstract value of a [`DocumentMetadata`].
pub struct DocumentMetadataView {
    pub faculty_id: u128,
    pub major_id: u128,
    pub year: i64,
    pub term: i64,
    pub grade: i64,
    pub subject_id: u128,
    pub teacher: Seq<char>,
    pub exam_type: ExamType,
    pub is_answer: bool,
    pub num: i64,
}

/// What a document is: which subject's exam of which year, term and grade, by
/// which teacher, of which kind, whether it is the answer sheet, and its
/// sequence number.
#[derive(Debug)]
pub struct DocumentMetadata {
    faculty_id: u128,
    major_id: u128,
    year: i64,
    term: i64,
    grade: i64,
    subject_id: u128,
    teacher: String,
    exam_type: ExamType,
    is_answer: bool,
    num: i64,
}

impl View for DocumentMetadata {
    type V = DocumentMetadataView;

    closed spec fn view(&self) -> DocumentMetadataView {
        DocumentMetadataView {
            faculty_id: self.faculty_id,
            major_id: self.major_id,
            year: self.year,
            term: self.term,
            grade: self.grade,
            subject_id: self.subject_id,
            teacher: self.teacher@,
            exam_type: self.exam_type,
            is_answer: self.is_answer,
            num: self.num,
        }
    }
}

impl DocumentMetadata {
    #[verifier::type_invariant]
    spec fn inv(self) -> bool {
        &&& valid_year(self.year as int)
        &&& valid_term(self.term as int)
        &&& valid_grade(self.grade as int)
        &&& valid_num(self.num as int)
    }

    pub fn new(
        faculty_id: Id<Faculty>,
        major_id: Id<Major>,
        year: Year<DocumentMetadata>,
        term: Term<DocumentMetadata>,
        grade: Grade<DocumentMetadata>,
        subject_id: Id<Subject>,
        teacher: String,
        exam_type: ExamType,
        is_answer: bool,
        num: Num<DocumentMetadata>,
    ) -> (res: Self)
        ensures
            res@ == (DocumentMetadataView {
                faculty_id: faculty_id.value(),
                major_id: major_id.value(),
                year: year.value(),
                term: term.value(),
                grade: grade.value(),
                subject_id: subject_id.value(),
                teacher: teacher@,
                exam_type,
                is_answer,
                num: num.value(),
            }),
    {
        let year = *year.year();
        let term = *term.term();
        let grade = *grade.grade();
        let num = *num.num();
        DocumentMetadata {
            faculty_id: faculty_id.id(),
            major_id: major_id.id(),
            year,
            term,
            grade,
            subject_id: subject_id.id(),
            teacher,
            exam_type,
            is_answer,
            num,
        }
    }

    pub fn faculty_id(&self) -> (res: Id<Faculty>)
        ensures
            res.value() == self@.faculty_id,
    {
        Id::new(self.faculty_id)
    }

    pub fn major_id(&self) -> (res: Id<Major>)
        ensures
            res.value() == self@.major_id,
    {
        Id::new(self.major_id)
    }

    pub fn year(&self) -> (res: Year<DocumentMetadata>)
        ensures
            res.value() == self@.year,
    {
        proof {
            use_type_invariant(self);
        }
        Year::from_valid(self.year)
    }

    pub fn term(&self) -> (res: Term<DocumentMetadata>)
        ensures
            res.value() == self@.term,
    {
        proof {
            use_type_invariant(self);
        }
        Term::from_valid(self.term)
    }

    pub fn grade(&self) -> (res: Grade<DocumentMetadata>)
        ensures
            res.value() == self@.grade,
    {
        proof {
            use_type_invariant(self);
        }
        Grade::from_valid(self.grade)
    }

    pub fn subject_id(&self) -> (res: Id<Subject>)
        ensures
            res.value() == self@.subject_id,
    {
        Id::new(self.subject_id)
    }

    pub fn teacher(&self) -> (res: &str)
        ensures
            res@ == self@.teacher,
    {
        self.teacher.as_str()
    }

    pub fn exam_type(&self) -> (res: &ExamType)
        ensures
            *res == self@.exam_type,
    {
        &self.exam_type
    }

    pub fn is_answer(&self) -> (res: &bool)
        ensures
            *res == self@.is_answer,
    {
        &self.is_answer
    }

    pub fn num(&self) -> (res: Num<DocumentMetadata>)
        ensures
            res.value() == self@.num,
    {
        proof {
            use_type_invariant(self);
        }
        Num::from_valid(self.num)
    }
}

impl Clone for DocumentMetadata {
    fn clone(&self) -> (res: Self)
        ensures
            res@ == self@,
    {
        proof {
            use_type_invariant(self);
        }
        DocumentMetadata {
            faculty_id: self.faculty_id,
            major_id: self.major_id,
            year: self.year,
            term: self.term,
            grade: self.grade,
            subject_id: self.subject_id,
            teacher: self.teacher.clone(),
            exam_type: self.exam_type,
            is_answer: self.is_answer,
            num: self.num,
        }
    }
}

// ---------------------------------------------------------------------------
// Document files
// ---------------------------------------------------------------------------

/// Abstract value of a [`DocumentFile`].
pub struct DocumentFileView {
    pub ty: DocumentFileType,
    pub path: Seq<char>,
}

/// One stored file of a document: its type and where it is stored.
#[derive(Debug)]
pub struct DocumentFile {
    ty: DocumentFileType,
    path: String,
}

impl View for DocumentFile {
    type V = DocumentFileView;

    closed spec fn view(&self) -> DocumentFileView {
        DocumentFileView { ty: self.ty, path: self.path@ }
    }
}

/// The views of a sequence of document files.
pub open spec fn file_views(files: Seq<DocumentFile>) -> Seq<DocumentFileView> {
    files.map_values(|f: DocumentFile| f@)
}

impl DocumentFile {
    pub fn new(ty: DocumentFileType, path: String) -> (res: Self)
        ensures
            res@ == (DocumentFileView { ty, path: path@ }),
    {
        DocumentFile { ty, path }
    }

    pub fn ty(&self) -> (res: &DocumentFileType)
        ensures
            *res == self@.ty,
    {
        &self.ty
    }

    pub fn path(&self) -> (res: &str)
        ensures
            res@ == self@.path,
    {
        self.path.as_str()
    }
}

impl Clone for DocumentFile {
    fn clone(&self) -> (res: Self)
        ensures
            res@ == self@,
    {
        DocumentFile { ty: self.ty, path: self.path.clone() }
    }
}

/// Copies of `files`, in order.
pub fn clone_document_files(files: &[DocumentFile]) -> (res: Vec<DocumentFile>)
    ensures
        file_views(res@) == file_views(files@),
{
    let mut res: Vec<DocumentFile> = Vec::new();
    let mut i: usize = 0;
    while i < files.len()
        invariant
            i <= files@.len(),
            file_views(res@) == file_views(files@.take(i as int)),
        decreases files@.len() - i,
    {
        let f = files[i].clone();
        let ghost prev = res@;
        res.push(f);
        assert(files@.take(i + 1) == files@.take(i as int).push(files@[i as int]));
        assert(file_views(res@) =~= file_views(prev).push(files@[i as int]@));
        assert(file_views(files@.take(i + 1)) =~= file_views(files@.take(i as int)).push(
            files@[i as int]@,
        ));
        i = i + 1;
    }
    assert(files@.take(files@.len() as int) =~= files@);
    res
}

// ---------------------------------------------------------------------------
// Documents
// ---------------------------------------------------------------------------

/// Abstract value of a [`Document`].
pub struct DocumentView {
    pub id: u128,
    pub metadata: DocumentMetadataView,
    pub files: Seq<DocumentFileView>,
}

/// A document: its identifier, its metadata, and at least one file.
#[derive(Debug)]
pub struct Document {
    id: u128,
    metadata: DocumentMetadata,
    files: Vec<DocumentFile>,
}

impl View for Document {
    type V = DocumentView;

    closed spec fn view(&self) -> DocumentView {
        DocumentView { id: self.id, metadata: self.metadata@, files: file_views(self.files@) }
    }
}

impl Document {
    #[verifier::type_invariant]
    spec fn inv(self) -> bool {
        self.files@.len() >= 1
    }

    /// A document, provided that it has at least one file.
    pub fn new(id: Id<Document>, metadata: DocumentMetadata, files: Vec<DocumentFile>) -> (res:
        Result<Self, EmptyDocumentFiles>)
        ensures
            match res {
                Ok(d) => files@.len() >= 1 && d@ == (DocumentView {
                    id: id.value(),
                    metadata: metadata@,
                    files: file_views(files@),
                }),
                Err(_) => files@.len() == 0,
            },
    {
        if files.len() >= 1 {
            Ok(Document { id: id.id(), metadata, files })
        } else {
            Err(EmptyDocumentFiles)
        }
    }

    pub fn id(&self) -> (res: Id<Document>)
        ensures
            res.value() == self@.id,
    {
        Id::new(self.id)
    }

    pub fn metadata(&self) -> (res: &DocumentMetadata)
        ensures
            res@ == self@.metadata,
    {
        &self.metadata
    }

    pub fn files(&self) -> (res: &[DocumentFile])
        ensures
            file_views(res@) == self@.files,
            res@.len() >= 1,
    {
        proof {
            use_type_invariant(self);
        }
        self.files.as_slice()
    }
}

impl Clone for Document {
    fn clone(&self) -> (res: Self)
        ensures
            res@ == self@,
    {
        proof {
            use_type_invariant(self);
        }
        let files = clone_document_files(self.files.as_slice());
        proof {
            assert(files@.len() == file_views(files@).len());
        }
        Document { id: self.id, metadata: self.metadata.clone(), files }
    }
}

} // verus!

verus! {

/// The views of a sequence of documents.
pub open spec fn document_views(documents: Seq<Document>) -> Seq<DocumentView> {
    documents.map_values(|d: Document| d@)
}

} // verus!
