use document_uploader::domain::document::{
    Document, DocumentFile, DocumentFileType, DocumentMetadata, ExamType,
};
use document_uploader::domain::subject::{CourseCode, Subject};
use document_uploader::domain::{Grade, Id, Num, Term, Year};
use document_uploader::infrastructure::local_filesystem::LocalFileSystemRepository;
use document_uploader::infrastructure::repository::{ExampleRepository, RepositoryError};
use document_uploader::usecase::repository::{
    SearchDocumentOption, SearchSubjectOption, UpdateSubjectContent,
};

fn subject(id: u128, name: &str, faculty: u128, major: u128, grade: i64, term: i64) -> Subject {
    Subject::new(
        Id::new(id),
        name.to_owned(),
        CourseCode::new(format!("C{id:03}")).unwrap(),
        Id::new(faculty),
        Id::new(major),
        Grade::new(grade).unwrap(),
        Term::new(term).unwrap(),
    )
}

fn document(id: u128, subject: u128, year: i64, teacher: &str, exam: ExamType, answer: bool) -> Document {
    let metadata = DocumentMetadata::new(
        Id::new(1),
        Id::new(2),
        Year::new(year).unwrap(),
        Term::new(2).unwrap(),
        Grade::new(1).unwrap(),
        Id::new(subject),
        teacher.to_owned(),
        exam,
        answer,
        Num::new(1).unwrap(),
    );
    Document::new(
        Id::new(id),
        metadata,
        vec![DocumentFile::new(DocumentFileType::Pdf, format!("path/to/{id}.pdf"))],
    )
    .unwrap()
}

#[test]
fn search_document_option() {
    let subject_id = Id::new(uuid::Uuid::new_v4().as_u128());
    let a = SearchDocumentOption::minimal(subject_id.clone());
    assert_eq!(a.subject_id, subject_id);
    assert!(a.year.is_none());
    assert!(a.teacher.is_none());
    assert!(a.exam_type.is_none());
    assert!(a.is_answer.is_none());

    let subject_id = Id::new(uuid::Uuid::new_v4().as_u128());
    let b = SearchDocumentOption {
        year: Some(Year::new(2026).unwrap()),
        ..SearchDocumentOption::minimal(subject_id.clone())
    };
    assert_eq!(b.subject_id, subject_id);
    assert_eq!(b.year.as_ref().map(Year::year), Some(&2026));
}

#[test]
fn new_repository_holds_the_example_catalogue() {
    let repo = ExampleRepository::new("/tmp/save_dir".to_owned());
    assert_eq!(repo.save_dir(), "/tmp/save_dir");
    assert!(repo.list_subjects().is_empty());
    let faculties = repo.list_faculties();
    assert_eq!(faculties.len(), 11);
    assert_eq!(faculties[0].name(), "教養教育");
    assert_eq!(faculties[6].name(), "医学部");
    let medical: Vec<&str> = faculties[6].majors().iter().map(|m| m.name()).collect();
    assert_eq!(medical, ["医学科", "保健 - 看護", "保健 - 放射線", "保健 - 検査技術"]);
    assert_eq!(faculties[8].name(), "工学部");
    assert_eq!(faculties[8].majors().len(), 15);
    assert_eq!(faculties[8].majors()[8].name(), "情電数学 - IT");
    assert_eq!(faculties[10].name(), "GDP");
    for f in &faculties {
        for m in f.majors() {
            assert_eq!(m.faculty_id(), f.id());
        }
    }
}

#[test]
fn created_subject_is_found_by_id() {
    let mut repo = ExampleRepository::new(String::new());
    repo.create_subject(subject(10, "線形代数", 1, 2, 1, 2)).unwrap();
    repo.create_subject(subject(11, "解析学", 1, 3, 2, 3)).unwrap();
    let found = repo.search_subjects(&SearchSubjectOption::by_id(Id::new(10)));
    assert_eq!(found.len(), 1);
    assert_eq!(found[0].name(), "線形代数");
    assert_eq!(found[0].course_code().code(), "C010");
}

#[test]
fn duplicate_subject_is_refused_and_store_kept() {
    let mut repo = ExampleRepository::new(String::new());
    repo.create_subject(subject(10, "線形代数", 1, 2, 1, 2)).unwrap();
    let e = repo.create_subject(subject(10, "解析学", 1, 2, 3, 4)).unwrap_err();
    assert_eq!(e, RepositoryError::SubjectAlreadyExists);
    assert_eq!(e.message(), "subject already exists");
    let all = repo.list_subjects();
    assert_eq!(all.len(), 1);
    assert_eq!(all[0].name(), "線形代数");
}

#[test]
fn search_subjects_with_no_condition_finds_all() {
    let mut repo = ExampleRepository::new(String::new());
    repo.create_subject(subject(10, "線形代数", 1, 2, 1, 1)).unwrap();
    repo.create_subject(subject(11, "解析学", 5, 6, 2, 3)).unwrap();
    assert_eq!(repo.search_subjects(&SearchSubjectOption::default()).len(), 2);
}

#[test]
fn search_subjects_conditions_are_combined() {
    let mut repo = ExampleRepository::new(String::new());
    repo.create_subject(subject(10, "線形代数", 1, 2, 2, 3)).unwrap();
    repo.create_subject(subject(11, "電磁気学", 1, 2, 2, 1)).unwrap();
    repo.create_subject(subject(12, "熱力学", 1, 2, 1, 3)).unwrap();
    repo.create_subject(subject(13, "解析学", 5, 6, 2, 3)).unwrap();
    let found = repo.search_subjects(&SearchSubjectOption {
        faculty_id: Some(Id::new(1)),
        grade: Some(Grade::new(2).unwrap()),
        term: Some(Term::new(3).unwrap()),
        ..Default::default()
    });
    assert_eq!(found.len(), 1);
    assert_eq!(found[0].id().id(), 10);
    let by_name = repo.search_subjects(&SearchSubjectOption {
        name: Some("熱力学".to_owned()),
        ..Default::default()
    });
    assert_eq!(by_name.len(), 1);
    assert_eq!(by_name[0].id().id(), 12);
    let by_major = repo.search_subjects(&SearchSubjectOption {
        major_id: Some(Id::new(6)),
        ..Default::default()
    });
    assert_eq!(by_major.len(), 1);
    assert_eq!(by_major[0].id().id(), 13);
}

#[test]
fn update_keeps_id_and_replaces_content() {
    let mut repo = ExampleRepository::new(String::new());
    repo.create_subject(subject(10, "線形代数", 1, 2, 1, 2)).unwrap();
    let updated = repo
        .update_subject(
            Id::new(10),
            UpdateSubjectContent {
                name: "解析学".to_owned(),
                course_code: CourseCode::new("C002".to_owned()).unwrap(),
                faculty_id: Id::new(5),
                major_id: Id::new(6),
                grade: Grade::new(3).unwrap(),
                term: Term::new(4).unwrap(),
            },
        )
        .unwrap();
    assert_eq!(updated.id().id(), 10);
    assert_eq!(updated.name(), "解析学");
    assert_eq!(updated.course_code().code(), "C002");
    assert_eq!(updated.faculty_id().id(), 5);
    assert_eq!(updated.major_id().id(), 6);
    assert_eq!(*updated.grade().grade(), 3);
    assert_eq!(*updated.term().term(), 4);
    let stored = repo.search_subjects(&SearchSubjectOption::by_id(Id::new(10)));
    assert_eq!(stored.len(), 1);
    assert_eq!(stored[0].name(), "解析学");
}

#[test]
fn update_of_missing_subject_is_refused() {
    let mut repo = ExampleRepository::new(String::new());
    repo.create_subject(subject(10, "線形代数", 1, 2, 1, 2)).unwrap();
    let e = repo
        .update_subject(
            Id::new(99),
            UpdateSubjectContent {
                name: "解析学".to_owned(),
                course_code: CourseCode::new("C002".to_owned()).unwrap(),
                faculty_id: Id::new(5),
                major_id: Id::new(6),
                grade: Grade::new(3).unwrap(),
                term: Term::new(4).unwrap(),
            },
        )
        .unwrap_err();
    assert_eq!(e, RepositoryError::SubjectNotFound);
    assert_eq!(e.message(), "subject not found");
    assert_eq!(repo.list_subjects()[0].name(), "線形代数");
}

#[test]
fn delete_returns_subject_and_removes_it() {
    let mut repo = ExampleRepository::new(String::new());
    repo.create_subject(subject(10, "線形代数", 1, 2, 1, 2)).unwrap();
    repo.create_subject(subject(11, "解析学", 1, 2, 1, 2)).unwrap();
    let deleted = repo.delete_subject(Id::new(10)).unwrap();
    assert_eq!(deleted.id().id(), 10);
    assert_eq!(deleted.name(), "線形代数");
    let rest = repo.list_subjects();
    assert_eq!(rest.len(), 1);
    assert_eq!(rest[0].id().id(), 11);
    let e = repo.delete_subject(Id::new(10)).unwrap_err();
    assert_eq!(e, RepositoryError::SubjectDoesNotExist);
    assert_eq!(e.message(), "subject does not exist");
}

#[test]
fn delete_undoes_create() {
    let mut repo = ExampleRepository::new(String::new());
    repo.create_subject(subject(10, "線形代数", 1, 2, 1, 2)).unwrap();
    repo.create_subject(subject(11, "解析学", 1, 2, 1, 2)).unwrap();
    let removed = repo.delete_subject(Id::new(11)).unwrap();
    assert_eq!(removed.name(), "解析学");
    let rest = repo.list_subjects();
    assert_eq!(rest.len(), 1);
    assert_eq!(rest[0].id().id(), 10);
}

#[test]
fn stored_document_is_found() {
    let mut repo = ExampleRepository::new(String::new());
    assert!(repo.find_document_by_id(&Id::new(7)).is_none());
    repo.store_document(document(7, 100, 2024, "山田", ExamType::FinalTerm, false));
    let found = repo.find_document_by_id(&Id::new(7)).unwrap();
    assert_eq!(found.id().id(), 7);
    assert_eq!(found.metadata().teacher(), "山田");
    assert_eq!(found.files()[0].path(), "path/to/7.pdf");
    assert!(repo.find_document_by_id(&Id::new(8)).is_none());
}

#[test]
fn search_documents_conditions_are_combined() {
    let mut repo = ExampleRepository::new(String::new());
    repo.store_document(document(1, 100, 2024, "山田", ExamType::FinalTerm, true));
    repo.store_document(document(2, 100, 2023, "山田", ExamType::FinalTerm, true));
    repo.store_document(document(3, 100, 2024, "田中", ExamType::FinalTerm, true));
    repo.store_document(document(4, 100, 2024, "山田", ExamType::MidTerm, true));
    repo.store_document(document(5, 100, 2024, "山田", ExamType::FinalTerm, false));
    repo.store_document(document(6, 200, 2024, "山田", ExamType::FinalTerm, true));
    let all = repo.search_documents(&SearchDocumentOption::minimal(Id::new(100)));
    assert_eq!(all.len(), 5);
    let found = repo.search_documents(&SearchDocumentOption {
        year: Some(Year::new(2024).unwrap()),
        teacher: Some("山田".to_owned()),
        exam_type: Some(ExamType::FinalTerm),
        is_answer: Some(true),
        ..SearchDocumentOption::minimal(Id::new(100))
    });
    assert_eq!(found.len(), 1);
    assert_eq!(found[0].id().id(), 1);
    assert!(repo.search_documents(&SearchDocumentOption::minimal(Id::new(300))).is_empty());
}

#[test]
fn new_file_paths_are_fresh_uuids_under_the_save_dir() {
    let fs_repo = LocalFileSystemRepository::new("/srv/save_dir".to_owned());
    let a = fs_repo.new_file_path();
    let b = fs_repo.new_file_path();
    assert_ne!(a, b);
    for p in [&a, &b] {
        let name = p.strip_prefix("/srv/save_dir/").unwrap();
        assert_eq!(name.len(), 36);
        assert_eq!(name.chars().nth(14), Some('4'));
        assert_eq!(name.matches('-').count(), 4);
    }

    let root = LocalFileSystemRepository::new("/".to_owned()).new_file_path();
    assert_eq!(root.len(), 37);
    assert!(root.starts_with('/') && !root.starts_with("//"));

    let example = ExampleRepository::new("/data".to_owned()).new_file_path();
    assert!(example.starts_with("/data/"));
    assert_eq!(example.len(), "/data/".len() + 36);
}
