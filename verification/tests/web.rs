use document_uploader::domain::document::{DocumentFileType, ExamType};
use document_uploader::domain::faculty::Faculty;
use document_uploader::domain::major::Major;
use document_uploader::domain::subject::{CourseCode, Subject};
use document_uploader::domain::{Grade, Id, Term};
use document_uploader::web::{
    extension_of, file_type_from_file_name, AppError, DocumentMetadataDto, DocumentUpload,
    FacultyDto, SubjectDto,
};

fn dto() -> DocumentMetadataDto {
    DocumentMetadataDto {
        faculty: 1,
        major: 2,
        year: 2025,
        term: 2,
        grade: 2,
        subject: 3,
        teacher: "岡山 聖彦".to_owned(),
        examtype: "final".to_owned(),
        isanswer: false,
        num: 1,
    }
}

fn bad_request(e: AppError) -> String {
    match e {
        AppError::BadRequest(m) => m,
        AppError::Internal => panic!("not a bad request"),
    }
}

#[test]
fn metadata_into_domain() {
    let m = dto().into_domain().unwrap();
    assert_eq!(*m.year().year(), 2025);
    assert_eq!(m.exam_type(), &ExamType::FinalTerm);
    assert_eq!(m.teacher(), "岡山 聖彦");
    let e = DocumentMetadataDto { year: 1900, term: 0, ..dto() }.into_domain().unwrap_err();
    assert_eq!(e.to_string(), "range validation error: expect: (1949, None), actual: 1900");
    let e = DocumentMetadataDto { term: 0, ..dto() }.into_domain().unwrap_err();
    assert_eq!(e.to_string(), "range validation error: expect: (1, 4), actual: 0");
    let e = DocumentMetadataDto { examtype: "exam".to_owned(), num: 0, ..dto() }
        .into_domain()
        .unwrap_err();
    assert_eq!(e.to_string(), "invalid examtype");
    let e = DocumentMetadataDto { num: 0, ..dto() }.into_domain().unwrap_err();
    assert_eq!(e.to_string(), "range validation error: expect: (1, None), actual: 0");
}

#[test]
fn file_types_from_names() {
    assert_eq!(extension_of("report.final.PDF"), "PDF");
    assert_eq!(extension_of("README"), "README");
    assert_eq!(extension_of("archive."), "");
    assert_eq!(file_type_from_file_name("report.final.PDF"), DocumentFileType::Pdf);
    assert_eq!(file_type_from_file_name("photo.JpG"), DocumentFileType::Jpeg);
    assert_eq!(file_type_from_file_name("notes.md"), DocumentFileType::Markdown);
    assert_eq!(file_type_from_file_name("program.exe"), DocumentFileType::Txt);
    assert_eq!(file_type_from_file_name(""), DocumentFileType::Txt);
}

#[test]
fn upload_needs_metadata_then_valid_metadata_then_a_file() {
    let mut upload = DocumentUpload::new();
    upload.add_file("a.pdf", vec![1]);
    assert_eq!(bad_request(upload.finish().unwrap_err()), "metadata field is required");

    let mut upload = DocumentUpload::new();
    upload.add_metadata(DocumentMetadataDto { grade: 10, ..dto() });
    upload.add_file("a.pdf", vec![1]);
    assert_eq!(
        bad_request(upload.finish().unwrap_err()),
        "invalid metadata value: range validation error: expect: (1, 9), actual: 10"
    );

    let mut upload = DocumentUpload::new();
    upload.add_metadata(dto());
    assert_eq!(bad_request(upload.finish().unwrap_err()), "at least one file is required");

    let mut upload = DocumentUpload::new();
    upload.add_metadata(DocumentMetadataDto { grade: 10, ..dto() });
    upload.add_file("a.PNG", vec![1, 2]);
    upload.add_metadata(dto());
    upload.add_file("b", vec![3]);
    let input = upload.finish().unwrap();
    assert_eq!(*input.metadata.grade().grade(), 2);
    assert_eq!(input.files.len(), 2);
    assert_eq!(input.files[0].file_type, DocumentFileType::Png);
    assert_eq!(input.files[0].content, [1, 2]);
    assert_eq!(input.files[1].file_type, DocumentFileType::Txt);

    assert!(matches!(AppError::bad_request("x".to_owned()), AppError::BadRequest(m) if m == "x"));
}

#[test]
fn catalogue_texts() {
    let faculty = Faculty::new(
        Id::new(0xf47ac10b58cc4372a5670e02b2c3d479),
        "工学部".to_owned(),
        vec![Major::new(
            Id::new(0x550e8400e29b41d4a716446655440000),
            "情電数理系/情報工学コース".to_owned(),
            Id::new(0xf47ac10b58cc4372a5670e02b2c3d479),
        )],
    );
    let f = FacultyDto::from_domain(faculty);
    assert_eq!(f.id, "f47ac10b-58cc-4372-a567-0e02b2c3d479");
    assert_eq!(f.majors[0].id, "550e8400-e29b-41d4-a716-446655440000");
    assert_eq!(f.majors[0].name, "情電数理系/情報工学コース");

    let s = SubjectDto::from_domain(Subject::new(
        Id::new(0x9b2e4c6a1f3d4e5b8a7c0d1e2f3a4b5c),
        "線形代数".to_owned(),
        CourseCode::new("C001".to_owned()).unwrap(),
        Id::new(0xf47ac10b58cc4372a5670e02b2c3d479),
        Id::new(0x550e8400e29b41d4a716446655440000),
        Grade::new(1).unwrap(),
        Term::new(1).unwrap(),
    ));
    assert_eq!(s.id, "9b2e4c6a-1f3d-4e5b-8a7c-0d1e2f3a4b5c");
    assert_eq!(s.faculty, "f47ac10b-58cc-4372-a567-0e02b2c3d479");
    assert_eq!(s.major, "550e8400-e29b-41d4-a716-446655440000");
    assert_eq!((s.grade, s.term), (1, 1));
}
