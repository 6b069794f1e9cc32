use document_uploader::domain::document::{
    Document, DocumentFile, DocumentFileType, DocumentMetadata, ExamType,
};
use document_uploader::domain::faculty::Faculty;
use document_uploader::domain::major::Major;
use document_uploader::domain::subject::{CourseCode, Subject};
use document_uploader::domain::teacher::Teacher;
use document_uploader::domain::{Grade, Id, Num, Term, Year};

#[test]
fn grade_accepts_one_to_nine() {
    assert!(Grade::<Subject>::new(0).is_err());
    assert_eq!(*Grade::<Subject>::new(1).unwrap().grade(), 1);
    assert_eq!(*Grade::<Subject>::new(9).unwrap().grade(), 9);
    let e = Grade::<Subject>::new(10).unwrap_err();
    assert_eq!(e.actual, 10);
    assert_eq!(e.expect_lower, Some(1));
    assert_eq!(e.expect_upper, Some(9));
}

#[test]
fn term_accepts_one_to_four() {
    assert!(Term::<Subject>::new(0).is_err());
    assert_eq!(*Term::<Subject>::new(4).unwrap().term(), 4);
    let e = Term::<Subject>::new(5).unwrap_err();
    assert_eq!((e.actual, e.expect_lower, e.expect_upper), (5, Some(1), Some(4)));
}

#[test]
fn year_accepts_1949_and_later() {
    assert_eq!(*Year::<DocumentMetadata>::new(1949).unwrap().year(), 1949);
    assert_eq!(*Year::<DocumentMetadata>::new(2026).unwrap().year(), 2026);
    let e = Year::<DocumentMetadata>::new(1948).unwrap_err();
    assert_eq!((e.actual, e.expect_lower, e.expect_upper), (1948, Some(1949), None));
}

#[test]
fn num_accepts_one_and_more() {
    assert_eq!(*Num::<DocumentMetadata>::new(1).unwrap().num(), 1);
    assert_eq!(*Num::<DocumentMetadata>::new(i64::MAX).unwrap().num(), i64::MAX);
    let e = Num::<DocumentMetadata>::new(0).unwrap_err();
    assert_eq!((e.actual, e.expect_lower, e.expect_upper), (0, Some(1), None));
}

#[test]
fn range_error_text() {
    let e = Grade::<Subject>::new(10).unwrap_err();
    assert_eq!(e.to_string(), "range validation error: expect: (1, 9), actual: 10");
    let e = Year::<DocumentMetadata>::new(-5).unwrap_err();
    assert_eq!(e.to_string(), "range validation error: expect: (1949, None), actual: -5");
    let e = Num::<DocumentMetadata>::new(i64::MIN).unwrap_err();
    assert_eq!(
        e.to_string(),
        "range validation error: expect: (1, None), actual: -9223372036854775808"
    );
}

#[test]
fn exam_type_codes() {
    for (code, t) in [
        (0, ExamType::Quiz),
        (1, ExamType::MidTerm),
        (2, ExamType::FinalTerm),
        (3, ExamType::Other),
    ] {
        assert_eq!(ExamType::from_int(code), Some(t));
        assert_eq!(t.to_int(), code);
    }
    assert_eq!(ExamType::from_int(4), None);
    assert_eq!(ExamType::from_int(-1), None);
}

#[test]
fn exam_type_names() {
    assert_eq!(ExamType::parse("quiz").unwrap(), ExamType::Quiz);
    assert_eq!(ExamType::parse("midterm").unwrap(), ExamType::MidTerm);
    assert_eq!(ExamType::parse("final").unwrap(), ExamType::FinalTerm);
    assert_eq!(ExamType::parse("finalterm").unwrap(), ExamType::FinalTerm);
    assert_eq!(ExamType::parse("other").unwrap(), ExamType::Other);
    assert!(ExamType::parse("Quiz").is_err());
    assert!(ExamType::parse("").is_err());
    assert_eq!(ExamType::parse("exam").unwrap_err().to_string(), "invalid examtype");
    for t in [ExamType::Quiz, ExamType::MidTerm, ExamType::FinalTerm, ExamType::Other] {
        assert_eq!(ExamType::parse(t.name()).unwrap(), t);
    }
}

#[test]
fn file_type_extensions() {
    assert_eq!(DocumentFileType::parse("jpg").unwrap(), DocumentFileType::Jpeg);
    assert_eq!(DocumentFileType::parse("jpe").unwrap(), DocumentFileType::Jpeg);
    assert_eq!(DocumentFileType::parse("jpeg").unwrap(), DocumentFileType::Jpeg);
    assert_eq!(DocumentFileType::parse("md").unwrap(), DocumentFileType::Markdown);
    assert_eq!(DocumentFileType::parse("typ").unwrap(), DocumentFileType::Typst);
    let e = DocumentFileType::parse("exe").unwrap_err();
    assert_eq!(e.file_type(), "exe");
    assert_eq!(e.to_string(), "file type `exe` is unsupported");
    for t in [
        DocumentFileType::Jpeg,
        DocumentFileType::Webp,
        DocumentFileType::Png,
        DocumentFileType::Doc,
        DocumentFileType::Docx,
        DocumentFileType::Pdf,
        DocumentFileType::Txt,
        DocumentFileType::Markdown,
        DocumentFileType::Typst,
        DocumentFileType::Tex,
    ] {
        assert_eq!(DocumentFileType::parse(&t.to_string()).unwrap(), t);
    }
}

fn metadata() -> DocumentMetadata {
    DocumentMetadata::new(
        Id::new(1),
        Id::new(2),
        Year::new(2025).unwrap(),
        Term::new(2).unwrap(),
        Grade::new(3).unwrap(),
        Id::new(4),
        "岡山 聖彦".to_owned(),
        ExamType::FinalTerm,
        false,
        Num::new(1).unwrap(),
    )
}

#[test]
fn metadata_getters() {
    let m = metadata();
    assert_eq!(m.faculty_id().id(), 1);
    assert_eq!(m.major_id().id(), 2);
    assert_eq!(*m.year().year(), 2025);
    assert_eq!(*m.term().term(), 2);
    assert_eq!(*m.grade().grade(), 3);
    assert_eq!(m.subject_id().id(), 4);
    assert_eq!(m.teacher(), "岡山 聖彦");
    assert_eq!(m.exam_type(), &ExamType::FinalTerm);
    assert_eq!(m.is_answer(), &false);
    assert_eq!(*m.num().num(), 1);
}

#[test]
fn document_needs_a_file() {
    let e = Document::new(Id::new(9), metadata(), vec![]).unwrap_err();
    assert_eq!(e.to_string(), "must have at least one document file");
    let d = Document::new(
        Id::new(9),
        metadata(),
        vec![DocumentFile::new(DocumentFileType::Pdf, "path/to/a.pdf".to_owned())],
    )
    .unwrap();
    assert_eq!(d.id().id(), 9);
    assert_eq!(d.files().len(), 1);
    assert_eq!(d.files()[0].ty(), &DocumentFileType::Pdf);
    assert_eq!(d.files()[0].path(), "path/to/a.pdf");
    let c = d.clone();
    assert_eq!(c.metadata().teacher(), "岡山 聖彦");
    assert_eq!(c.files()[0].path(), "path/to/a.pdf");
}

#[test]
fn ids_compare_by_value() {
    let a: Id<Subject> = Id::new(0x1234);
    let b: Id<Subject> = Id::new(0x1234);
    let c: Id<Subject> = Id::new(0x1235);
    assert_eq!(a, b);
    assert_ne!(a, c);
    assert_eq!(a.id(), 0x1234);
}

#[test]
fn generated_ids_are_version_4() {
    let a: Id<Subject> = Id::generate();
    let b: Id<Subject> = Id::generate();
    assert_ne!(a, b);
    assert_eq!((a.id() >> 76) & 0xf, 4);
    assert_eq!((a.id() >> 62) & 0x3, 2);
    assert_eq!(uuid::Uuid::from_u128(a.id()).get_version_num(), 4);
}

#[test]
fn id_texts() {
    let id: Id<Subject> = Id::new(0x1234567890abcdef1234567890abcdef);
    assert_eq!(id.simple(), "1234567890abcdef1234567890abcdef");
    assert_eq!(id.hyphenated(), "12345678-90ab-cdef-1234-567890abcdef");
    let zero: Id<Subject> = Id::new(0);
    assert_eq!(zero.hyphenated(), "00000000-0000-0000-0000-000000000000");
}

#[test]
fn entities() {
    let faculty = Faculty::new(
        Id::new(1),
        "工学部".to_owned(),
        vec![Major::new(Id::new(2), "情報工学コース".to_owned(), Id::new(1))],
    );
    assert_eq!(faculty.id().id(), 1);
    assert_eq!(faculty.name(), "工学部");
    assert_eq!(faculty.majors().len(), 1);
    assert_eq!(faculty.majors()[0].faculty_id().id(), 1);
    assert_eq!(faculty.clone().majors()[0].name(), "情報工学コース");

    let subject = Subject::new(
        Id::new(5),
        "線形代数".to_owned(),
        CourseCode::new("C001".to_owned()).unwrap(),
        Id::new(1),
        Id::new(2),
        Grade::new(1).unwrap(),
        Term::new(2).unwrap(),
    );
    assert_eq!(subject.id().id(), 5);
    assert_eq!(subject.name(), "線形代数");
    assert_eq!(subject.course_code().code(), "C001");
    assert_eq!(subject.faculty_id().id(), 1);
    assert_eq!(subject.major_id().id(), 2);
    assert_eq!(*subject.grade().grade(), 1);
    assert_eq!(*subject.term().term(), 2);

    let teacher = Teacher::new(Id::new(7), "山田".to_owned(), Some(Id::new(1)));
    assert_eq!(teacher.id().id(), 7);
    assert_eq!(teacher.name(), "山田");
    assert_eq!(teacher.belong_faculty_id().map(|f| f.id()), Some(1));
    let unattached = Teacher::new(Id::new(8), "田中".to_owned(), None);
    assert!(unattached.belong_faculty_id().is_none());
}

#[test]
fn range_values_order_by_value() {
    let y2023 = Year::<DocumentMetadata>::new(2023).unwrap();
    let y2024 = Year::<DocumentMetadata>::new(2024).unwrap();
    assert!(y2023 < y2024);
    assert!(y2024 >= Year::<DocumentMetadata>::new(2024).unwrap());
    assert_eq!(y2023.partial_cmp(&y2024), Some(std::cmp::Ordering::Less));
    assert!(Grade::<Subject>::new(3).unwrap() > Grade::<Subject>::new(2).unwrap());
    assert!(Term::<Subject>::new(1).unwrap() <= Term::<Subject>::new(4).unwrap());
    assert!(Num::<DocumentMetadata>::new(9).unwrap() > Num::<DocumentMetadata>::new(1).unwrap());
}

#[test]
fn texts_parse_through_from_str() {
    assert_eq!("midterm".parse::<ExamType>().unwrap(), ExamType::MidTerm);
    assert!("mid".parse::<ExamType>().is_err());
    assert_eq!("pdf".parse::<DocumentFileType>().unwrap(), DocumentFileType::Pdf);
    assert_eq!("PDF".parse::<DocumentFileType>().unwrap_err().file_type(), "PDF");
}
