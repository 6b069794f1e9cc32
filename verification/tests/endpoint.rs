use document_uploader::domain::document::{
    Document, DocumentFile, DocumentFileType, DocumentMetadata, ExamType,
};
use document_uploader::domain::faculty::Faculty;
use document_uploader::domain::major::Major;
use document_uploader::domain::subject::{CourseCode, Subject};
use document_uploader::domain::{Grade, Id, Num, Term, Year};
use document_uploader::endpoint::docs_id::get_document_id_response;
use document_uploader::endpoint::dto::document::{DocumentDto, ExamTypeDto};
use document_uploader::endpoint::faculties::get_faculties_response;
use document_uploader::endpoint::subjects::{
    convert_create_subject_output, get_subjects_response, parse_error_to_endpoint_error,
    post_subject_response, Input, PostInput,
};
use document_uploader::endpoint::subjects_id::{
    convert_update_subject_output, delete_subject_response, put_subject_response,
    PutSubjectsIdInput,
};
use document_uploader::endpoint::{alive, api_not_found, error_with_400, EndpointError};
use document_uploader::usecase::app::create_subject::CreateSubjectOutput;
use document_uploader::usecase::app::delete_subject::DeleteSubjectOutput;
use document_uploader::usecase::app::get_zip_document::GetZipDocumentOutput;
use document_uploader::usecase::app::update_subject::UpdateSubjectOutput;

fn subject() -> Subject {
    Subject::new(
        Id::new(0x9b2e4c6a1f3d4e5b8a7c0d1e2f3a4b5c),
        "線形代数".to_owned(),
        CourseCode::new("C001".to_owned()).unwrap(),
        Id::new(0xf47ac10b58cc4372a5670e02b2c3d479),
        Id::new(0x550e8400e29b41d4a716446655440000),
        Grade::new(1).unwrap(),
        Term::new(1).unwrap(),
    )
}

fn message(e: &EndpointError) -> (&str, Option<&str>) {
    (e.message.as_str(), e.details.as_deref())
}

#[test]
fn alive_and_not_found() {
    assert_eq!(alive(), "ok");
    let (status, body) = api_not_found();
    assert_eq!(status, 404);
    assert_eq!(message(&body.unwrap_err()), ("not found", None));
}

#[test]
fn subjects_query_becomes_option() {
    let input = Input { faculty: 3, major: Some(4), grade: None, term: Some(2) };
    let option = input.to_get_subjects_option();
    assert_eq!(option.faculty_id, 3);
    assert_eq!(option.major_id, Some(4));
    assert_eq!(option.grade, None);
    assert_eq!(option.term, Some(2));
}

#[test]
fn post_input_validation() {
    let body = |grade, term| PostInput {
        name: "線形代数".to_owned(),
        course_code: "C001".to_owned(),
        faculty: 1,
        major: 2,
        grade,
        term,
    };
    let ok = body(1, 2).to_create_subject_input().unwrap();
    assert_eq!(ok.name, "線形代数");
    assert_eq!(ok.course_code, "C001");
    assert_eq!((ok.faculty_id.id(), ok.major_id.id()), (1, 2));
    assert_eq!((*ok.grade.grade(), *ok.term.term()), (1, 2));
    let e = body(0, 9).to_create_subject_input().unwrap_err();
    assert_eq!(
        message(&e),
        ("validation error", Some("range validation error: expect: (1, 9), actual: 0"))
    );
    let e = body(3, 9).to_create_subject_input().unwrap_err();
    assert_eq!(
        message(&e),
        ("validation error", Some("range validation error: expect: (1, 4), actual: 9"))
    );
}

#[test]
fn put_input_validation() {
    let body = PutSubjectsIdInput {
        name: "解析学".to_owned(),
        course_code: "C002".to_owned(),
        faculty: 1,
        major: 2,
        grade: 2,
        term: 3,
    };
    let input = body.to_update_subject_input(77).unwrap();
    assert_eq!(input.id.id(), 77);
    assert_eq!(input.name, "解析学");
    let bad = PutSubjectsIdInput { grade: 10, ..body };
    let e = bad.to_update_subject_input(77).unwrap_err();
    assert_eq!(e.message, "validation error");
}

#[test]
fn parse_error_text() {
    let e = parse_error_to_endpoint_error(Term::<Subject>::new(0).unwrap_err());
    assert_eq!(
        message(&e),
        ("validation error", Some("range validation error: expect: (1, 4), actual: 0"))
    );
    let (status, body) = error_with_400::<()>(e);
    assert_eq!(status, 400);
    assert_eq!(body.unwrap_err().message, "validation error");
}

#[test]
fn create_refusals() {
    assert!(convert_create_subject_output(CreateSubjectOutput::Created(subject())).is_ok());
    let e = convert_create_subject_output(CreateSubjectOutput::ErrCourseCodeNonUnique(
        "C001".to_owned(),
    ))
    .unwrap_err();
    assert_eq!(
        message(&e),
        ("duplicate check failed", Some("subject which have course_code 'C001' already exists"))
    );
    let e = convert_create_subject_output(CreateSubjectOutput::ErrFacultyNotExist(Id::new(1)))
        .unwrap_err();
    assert_eq!(message(&e), ("invalid faculty_id", Some("faculty does not exist")));
    let e = convert_create_subject_output(CreateSubjectOutput::ErrMajorNotExist(Id::new(1)))
        .unwrap_err();
    assert_eq!(message(&e), ("invalid major_id", Some("major does not exist")));
    let e = convert_create_subject_output(CreateSubjectOutput::ErrFacultyMajorRelation(
        Id::new(1),
        Id::new(2),
    ))
    .unwrap_err();
    assert_eq!(message(&e), ("invalid major_id", Some("major does not belong to faculty")));
}

#[test]
fn update_refusals() {
    assert!(convert_update_subject_output(UpdateSubjectOutput::Updated(subject())).is_ok());
    let e = convert_update_subject_output(UpdateSubjectOutput::ErrSubjectNotExist(Id::new(1)))
        .unwrap_err();
    assert_eq!(message(&e), ("invalid subject_id", Some("subject does not exist")));
    let e = convert_update_subject_output(UpdateSubjectOutput::ErrCourseCodeNonUnique(
        "X".to_owned(),
    ))
    .unwrap_err();
    assert_eq!(e.details.as_deref(), Some("subject which have course_code 'X' already exists"));
    let e = convert_update_subject_output(UpdateSubjectOutput::ErrFacultyNotExist(Id::new(1)))
        .unwrap_err();
    assert_eq!(message(&e), ("invalid faculty_id", Some("faculty does not exist")));
    let e = convert_update_subject_output(UpdateSubjectOutput::ErrMajorNotExist(Id::new(1)))
        .unwrap_err();
    assert_eq!(message(&e), ("invalid major_id", Some("major does not exist")));
    let e = convert_update_subject_output(UpdateSubjectOutput::ErrFacultyMajorRelation(
        Id::new(1),
        Id::new(2),
    ))
    .unwrap_err();
    assert_eq!(message(&e), ("invalid major_id", Some("major does not belong to faculty")));
}

#[test]
fn post_subject_answers() {
    let (status, body) = post_subject_response(Some(CreateSubjectOutput::Created(subject())));
    assert_eq!(status, 201);
    let created = body.unwrap();
    assert_eq!(created.location, "/subjects/9b2e4c6a-1f3d-4e5b-8a7c-0d1e2f3a4b5c");
    assert_eq!(created.subject.id, 0x9b2e4c6a1f3d4e5b8a7c0d1e2f3a4b5c);
    assert_eq!(created.subject.name, "線形代数");
    assert_eq!((created.subject.grade, created.subject.term), (1, 1));
    let (status, body) =
        post_subject_response(Some(CreateSubjectOutput::ErrMajorNotExist(Id::new(1))));
    assert_eq!(status, 400);
    assert_eq!(body.unwrap_err().message, "invalid major_id");
    let (status, body) = post_subject_response(None);
    assert_eq!(status, 500);
    assert_eq!(message(&body.unwrap_err()), ("unexpected error occured", None));
}

#[test]
fn put_and_delete_subject_answers() {
    let (status, body) = put_subject_response(Some(UpdateSubjectOutput::Updated(subject())));
    assert_eq!(status, 200);
    assert_eq!(body.unwrap().faculty, 0xf47ac10b58cc4372a5670e02b2c3d479);
    let (status, _) =
        put_subject_response(Some(UpdateSubjectOutput::ErrSubjectNotExist(Id::new(1))));
    assert_eq!(status, 400);
    assert_eq!(put_subject_response(None).0, 500);

    let (status, body) = delete_subject_response(Some(DeleteSubjectOutput::Deleted));
    assert_eq!(status, 204);
    assert!(body.is_ok());
    let (status, body) = delete_subject_response(Some(DeleteSubjectOutput::ErrReferencedByDocuments));
    assert_eq!(status, 409);
    assert_eq!(
        message(&body.unwrap_err()),
        (
            "subject is still referenced by documents",
            Some("reassign or delete them before deleting this subject")
        )
    );
    let (status, body) =
        delete_subject_response(Some(DeleteSubjectOutput::ErrSubjectNotExist(Id::new(1))));
    assert_eq!(status, 404);
    assert_eq!(message(&body.unwrap_err()), ("invalid subject_id", Some("subject does not exist")));
    assert_eq!(delete_subject_response(None).0, 500);
}

#[test]
fn get_subjects_and_faculties_answers() {
    let (status, body) = get_subjects_response(Some(vec![subject()]));
    assert_eq!(status, 200);
    let dtos = body.unwrap();
    assert_eq!(dtos.len(), 1);
    assert_eq!(dtos[0].major, 0x550e8400e29b41d4a716446655440000);
    assert_eq!(get_subjects_response(None).0, 500);

    let faculty = Faculty::new(
        Id::new(1),
        "工学部".to_owned(),
        vec![
            Major::new(Id::new(2), "情報工学コース".to_owned(), Id::new(1)),
            Major::new(Id::new(3), "ネットワーク工学コース".to_owned(), Id::new(1)),
        ],
    );
    let (status, body) = get_faculties_response(Some(vec![faculty]));
    assert_eq!(status, 200);
    let dtos = body.unwrap();
    assert_eq!(dtos[0].name, "工学部");
    assert_eq!(dtos[0].majors.len(), 2);
    assert_eq!(dtos[0].majors[1].name, "ネットワーク工学コース");
    assert_eq!(dtos[0].majors[1].id, 3);
    assert_eq!(get_faculties_response(None).0, 500);
}

#[test]
fn document_download_answers() {
    let id: Id<Document> = Id::new(0xd290f1ee6c544b0190e6d701748f0851);
    let (status, body) = get_document_id_response(
        id,
        Some(Some(GetZipDocumentOutput {
            name: "1234567890abcdef1234567890abcdef.zip".to_owned(),
            content: vec![1, 2, 3],
        })),
    );
    assert_eq!(status, 200);
    let z = body.unwrap();
    assert_eq!(
        z.content_disposition,
        "attachment; filename*=UTF-8''1234567890abcdef1234567890abcdef%2Ezip"
    );
    assert_eq!(z.content_type, "application/zip");
    assert_eq!(z.content, [1, 2, 3]);

    let (_, body) = get_document_id_response(
        id,
        Some(Some(GetZipDocumentOutput { name: "試験 a.zip".to_owned(), content: vec![] })),
    );
    assert_eq!(
        body.unwrap().content_disposition,
        "attachment; filename*=UTF-8''%E8%A9%A6%E9%A8%93%20a%2Ezip"
    );

    let (status, body) = get_document_id_response(id, Some(None));
    assert_eq!(status, 404);
    assert_eq!(
        message(&body.unwrap_err()),
        ("document does not exist", Some("id: d290f1ee-6c54-4b01-90e6-d701748f0851"))
    );
    assert_eq!(get_document_id_response(id, None).0, 500);
}

#[test]
fn document_representation() {
    let metadata = DocumentMetadata::new(
        Id::new(0xf47ac10b58cc4372a5670e02b2c3d479),
        Id::new(0x550e8400e29b41d4a716446655440000),
        Year::new(2025).unwrap(),
        Term::new(2).unwrap(),
        Grade::new(2).unwrap(),
        Id::new(0x9b2e4c6a1f3d4e5b8a7c0d1e2f3a4b5c),
        "岡山 聖彦".to_owned(),
        ExamType::FinalTerm,
        false,
        Num::new(1).unwrap(),
    );
    let doc = Document::new(
        Id::new(0xd290f1ee6c544b0190e6d701748f0851),
        metadata,
        vec![DocumentFile::new(DocumentFileType::Pdf, "a".to_owned())],
    )
    .unwrap();
    let dto = DocumentDto::from_domain(&doc);
    assert_eq!(dto.id, 0xd290f1ee6c544b0190e6d701748f0851);
    assert_eq!(dto.metadata.year, 2025);
    assert_eq!(dto.metadata.teacher, "岡山 聖彦");
    assert_eq!(dto.metadata.examtype.0, "final");
    assert!(!dto.metadata.isanswer);
    assert_eq!(dto.metadata.num, 1);
    assert_eq!(ExamTypeDto::from_domain(&ExamType::Quiz).0, "quiz");
    assert_eq!(ExamTypeDto::from_domain(&ExamType::MidTerm).0, "midterm");
    assert_eq!(ExamTypeDto::from_domain(&ExamType::Other).0, "other");
}
