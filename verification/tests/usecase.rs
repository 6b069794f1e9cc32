use document_uploader::domain::document::{
    Document, DocumentFile, DocumentFileType, DocumentMetadata, ExamType,
};
use document_uploader::domain::subject::{CourseCode, Subject};
use document_uploader::domain::{Grade, Id, Num, Term, Year};
use document_uploader::usecase::app::create_subject::{CreateSubjectInput, CreateSubjectUseCase};
use document_uploader::usecase::app::get_documents::{GetDocumentsOption, GetDocumentsUseCase};
use document_uploader::usecase::app::get_subjects::{GetSubjectsOption, GetSubjectsUseCase};
use document_uploader::usecase::app::get_zip_document::{get_file_name, GetZipDocumentUseCase};
use document_uploader::usecase::app::store_document::StoreDocumentUseCase;
use document_uploader::usecase::app::update_subject::{
    UpdateSubjectInput, UpdateSubjectOutput, UpdateSubjectUseCase,
};

fn metadata() -> DocumentMetadata {
    DocumentMetadata::new(
        Id::new(1),
        Id::new(2),
        Year::new(2024).unwrap(),
        Term::new(2).unwrap(),
        Grade::new(1).unwrap(),
        Id::new(3),
        "山田".to_owned(),
        ExamType::Quiz,
        false,
        Num::new(1).unwrap(),
    )
}

fn subject(id: u128, faculty: u128, major: u128, grade: i64, term: i64) -> Subject {
    Subject::new(
        Id::new(id),
        format!("S{id}"),
        CourseCode::new(format!("C{id}")).unwrap(),
        Id::new(faculty),
        Id::new(major),
        Grade::new(grade).unwrap(),
        Term::new(term).unwrap(),
    )
}

#[test]
fn uuid_simple() {
    let uuid = uuid::Uuid::from_u128(0x1234567890abcdef1234567890abcdef_u128);
    assert_eq!(&uuid.as_simple().to_string(), &"1234567890abcdef1234567890abcdef");
    let name = GetZipDocumentUseCase::<()>::archive_name_of(Id::new(uuid.as_u128()));
    assert_eq!(name, "1234567890abcdef1234567890abcdef.zip");
}

#[test]
fn archive_names_are_fresh() {
    let a = GetZipDocumentUseCase::<()>::archive_name();
    let b = GetZipDocumentUseCase::<()>::archive_name();
    assert_ne!(a, b);
    assert_eq!(a.len(), 36);
    assert!(a.ends_with(".zip"));
    assert!(a[..32].chars().all(|c| c.is_ascii_hexdigit() && !c.is_ascii_uppercase()));
}

#[test]
fn entry_names_add_the_extension() {
    let f = DocumentFile::new(DocumentFileType::Pdf, "/srv/save_dir/abc".to_owned());
    assert_eq!(get_file_name(&f).unwrap(), "abc.pdf");
    let f = DocumentFile::new(DocumentFileType::Markdown, "notes/".to_owned());
    assert_eq!(get_file_name(&f).unwrap(), "notes.md");
    let f = DocumentFile::new(DocumentFileType::Txt, "a/..".to_owned());
    let e = get_file_name(&f).unwrap_err();
    assert_eq!(e.message(), "document file name terminates in '..'");
    let f = DocumentFile::new(DocumentFileType::Txt, String::new());
    assert!(get_file_name(&f).is_err());

    let d = Document::new(
        Id::new(1),
        metadata(),
        vec![
            DocumentFile::new(DocumentFileType::Pdf, "x/a".to_owned()),
            DocumentFile::new(DocumentFileType::Jpeg, "x/b".to_owned()),
        ],
    )
    .unwrap();
    let names = GetZipDocumentUseCase::<()>::entry_names(&d).unwrap();
    assert_eq!(names, ["a.pdf", "b.jpeg"]);
    let bad = Document::new(
        Id::new(1),
        metadata(),
        vec![
            DocumentFile::new(DocumentFileType::Pdf, "x/a".to_owned()),
            DocumentFile::new(DocumentFileType::Jpeg, "/".to_owned()),
        ],
    )
    .unwrap();
    assert!(GetZipDocumentUseCase::<()>::entry_names(&bad).is_err());
}

#[test]
fn new_subject_takes_the_input_and_a_fresh_id() {
    let input = || CreateSubjectInput {
        name: "線形代数".to_owned(),
        course_code: "C001".to_owned(),
        faculty_id: Id::new(1),
        major_id: Id::new(2),
        grade: Grade::new(1).unwrap(),
        term: Term::new(2).unwrap(),
    };
    let a = CreateSubjectUseCase::<()>::new_subject(input());
    let b = CreateSubjectUseCase::<()>::new_subject(input());
    assert_ne!(a.id(), b.id());
    assert_eq!(a.name(), "線形代数");
    assert_eq!(a.course_code().code(), "C001");
    assert_eq!(a.faculty_id().id(), 1);
    assert_eq!(a.major_id().id(), 2);
    assert_eq!(*a.grade().grade(), 1);
    assert_eq!(*a.term().term(), 2);
}

#[test]
fn select_subjects_of_a_faculty() {
    let subjects = vec![
        subject(1, 10, 20, 1, 1),
        subject(2, 10, 21, 1, 1),
        subject(3, 10, 20, 2, 1),
        subject(4, 11, 20, 1, 1),
        subject(5, 10, 20, 1, 3),
    ];
    let all = GetSubjectsUseCase::<()>::select(
        &GetSubjectsOption { faculty_id: 10, major_id: None, grade: None, term: None },
        subjects,
    );
    let ids: Vec<u128> = all.iter().map(|s| s.id().id()).collect();
    assert_eq!(ids, [1, 2, 3, 5]);
    let narrowed = GetSubjectsUseCase::<()>::select(
        &GetSubjectsOption { faculty_id: 10, major_id: Some(20), grade: Some(1), term: Some(1) },
        all,
    );
    let ids: Vec<u128> = narrowed.iter().map(|s| s.id().id()).collect();
    assert_eq!(ids, [1]);
    let none = GetSubjectsUseCase::<()>::select(
        &GetSubjectsOption { faculty_id: 10, major_id: None, grade: Some(99), term: None },
        narrowed,
    );
    assert!(none.is_empty());
}

#[test]
fn search_option_copies_the_conditions() {
    let option = GetDocumentsUseCase::<()>::search_option(GetDocumentsOption {
        subject_id: Id::new(5),
        year: Some(Year::new(2024).unwrap()),
        teacher: Some("山田".to_owned()),
        exam_type: Some(ExamType::Other),
        is_answer: Some(true),
    });
    assert_eq!(option.subject_id.id(), 5);
    assert_eq!(option.year.map(|y| *y.year()), Some(2024));
    assert_eq!(option.teacher.as_deref(), Some("山田"));
    assert_eq!(option.exam_type, Some(ExamType::Other));
    assert_eq!(option.is_answer, Some(true));
}

#[test]
fn stored_document_needs_a_file() {
    let files = vec![DocumentFile::new(DocumentFileType::Png, "p".to_owned())];
    let d = StoreDocumentUseCase::<()>::assemble(metadata(), files).unwrap();
    assert_eq!(d.files().len(), 1);
    assert_eq!(uuid::Uuid::from_u128(d.id().id()).get_version_num(), 4);
    assert!(StoreDocumentUseCase::<()>::assemble(metadata(), vec![]).is_err());
}

fn update_input(id: u128) -> UpdateSubjectInput {
    UpdateSubjectInput {
        id: Id::new(id),
        name: "解析学".to_owned(),
        course_code: "C002".to_owned(),
        faculty_id: Id::new(5),
        major_id: Id::new(6),
        grade: Grade::new(3).unwrap(),
        term: Term::new(4).unwrap(),
    }
}

#[test]
fn update_plan() {
    let query = UpdateSubjectUseCase::<()>::existence_query(&update_input(7));
    assert_eq!(query.subject_id.map(|i| i.id()), Some(7));
    assert!(query.name.is_none() && query.faculty_id.is_none() && query.grade.is_none());

    match UpdateSubjectUseCase::<()>::plan(update_input(7), &[]) {
        Err(UpdateSubjectOutput::ErrSubjectNotExist(id)) => assert_eq!(id.id(), 7),
        other => panic!("unexpected plan: {other:?}"),
    }
    let found = [subject(7, 1, 2, 1, 1)];
    let (id, content) = UpdateSubjectUseCase::<()>::plan(update_input(7), &found).unwrap();
    assert_eq!(id.id(), 7);
    assert_eq!(content.name, "解析学");
    assert_eq!(content.course_code.code(), "C002");
    assert_eq!(content.faculty_id.id(), 5);
    assert_eq!(content.major_id.id(), 6);
    assert_eq!(*content.grade.grade(), 3);
    assert_eq!(*content.term.term(), 4);
}

#[test]
fn entry_names_keep_the_whole_final_name() {
    let f = DocumentFile::new(DocumentFileType::Pdf, "dir/report.v2".to_owned());
    assert_eq!(get_file_name(&f).unwrap(), "report.v2.pdf");
    let f = DocumentFile::new(DocumentFileType::Png, "dir/...".to_owned());
    assert_eq!(get_file_name(&f).unwrap(), "....png");
    let f = DocumentFile::new(DocumentFileType::Png, "..".to_owned());
    assert!(get_file_name(&f).is_err());
}
