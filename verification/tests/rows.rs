use document_uploader::domain::document::{DocumentFileType, ExamType};
use document_uploader::infrastructure::rows::{
    document_from_rows, documents_from_rows, faculties_from_rows, subject_from_row,
    subjects_from_rows, DocumentFileRow, DocumentRow, FacultyRow, MajorRow, RowError, SubjectRow,
};

fn faculty(id: u128, name: &str) -> FacultyRow {
    FacultyRow { id, name: name.to_owned() }
}

fn major(id: u128, name: &str, faculty_id: u128) -> MajorRow {
    MajorRow { id, name: name.to_owned(), faculty_id }
}

fn doc_row(id: u128, year: i64, exam_type: i64) -> DocumentRow {
    DocumentRow {
        id,
        faculty_id: 1,
        major_id: 2,
        subject_id: 3,
        year,
        term: 2,
        grade: 1,
        teacher: "山田".to_owned(),
        exam_type,
        is_answer: false,
        num: 1,
    }
}

fn file_row(document_id: u128, file_type: &str, path: &str) -> DocumentFileRow {
    DocumentFileRow { document_id, file_type: file_type.to_owned(), path: path.to_owned() }
}

#[test]
fn majors_pair_with_their_faculty() {
    let faculties = [faculty(1, "テスト学部A"), faculty(2, "テスト学部B"), faculty(3, "専攻ゼロ学部")];
    let majors = [
        major(10, "テスト専攻A1", 1),
        major(20, "テスト専攻B1", 2),
        major(11, "テスト専攻A2", 1),
        major(99, "孤立", 42),
    ];
    let result = faculties_from_rows(&faculties, &majors);
    assert_eq!(result.len(), 3);
    let a: Vec<u128> = result[0].majors().iter().map(|m| m.id().id()).collect();
    assert_eq!(a, [10, 11]);
    assert_eq!(result[0].name(), "テスト学部A");
    let b: Vec<&str> = result[1].majors().iter().map(|m| m.name()).collect();
    assert_eq!(b, ["テスト専攻B1"]);
    assert!(result[2].majors().is_empty());
    for f in &result {
        for m in f.majors() {
            assert_eq!(m.faculty_id(), f.id());
        }
    }
}

#[test]
fn repeated_faculty_row_takes_no_major() {
    let faculties = [faculty(1, "A"), faculty(1, "A again")];
    let majors = [major(10, "M", 1)];
    let result = faculties_from_rows(&faculties, &majors);
    assert_eq!(result[0].majors().len(), 1);
    assert!(result[1].majors().is_empty());
}

#[test]
fn subject_rows() {
    let row = |grade, term| SubjectRow {
        id: 5,
        name: "線形代数".to_owned(),
        course_code: "C001".to_owned(),
        faculty_id: 1,
        major_id: 2,
        grade,
        term,
    };
    let s = subject_from_row(&row(1, 2)).unwrap();
    assert_eq!(s.name(), "線形代数");
    assert_eq!(s.course_code().code(), "C001");
    assert_eq!((s.faculty_id().id(), s.major_id().id()), (1, 2));
    assert_eq!(subject_from_row(&row(0, 0)).unwrap_err().actual, 0);
    assert_eq!(subject_from_row(&row(1, 7)).unwrap_err().actual, 7);
    let all = subjects_from_rows(&[row(1, 1), row(2, 3)]).unwrap();
    assert_eq!(all.len(), 2);
    let e = subjects_from_rows(&[row(1, 1), row(1, 9), row(11, 1)]).unwrap_err();
    assert_eq!(e.actual, 9);
}

#[test]
fn single_document_from_rows() {
    let d = document_from_rows(
        &doc_row(7, 2024, 2),
        &[file_row(7, "pdf", "path/to/a.pdf"), file_row(7, "jpeg", "path/to/b.jpg")],
    )
    .unwrap();
    assert_eq!(d.id().id(), 7);
    assert_eq!(d.metadata().exam_type(), &ExamType::FinalTerm);
    assert_eq!(*d.metadata().year().year(), 2024);
    assert_eq!(d.files()[1].ty(), &DocumentFileType::Jpeg);
    assert_eq!(d.files()[1].path(), "path/to/b.jpg");

    match document_from_rows(&doc_row(7, 2024, 9), &[file_row(7, "pdf", "a")]) {
        Err(RowError::InvalidExamType(9)) => {}
        other => panic!("unexpected: {other:?}"),
    }
    match document_from_rows(&doc_row(7, 1900, 9), &[file_row(7, "pdf", "a")]) {
        Err(RowError::OutOfRange(e)) => assert_eq!(e.actual, 1900),
        other => panic!("unexpected: {other:?}"),
    }
    match document_from_rows(&doc_row(7, 1900, 9), &[file_row(7, "exe", "a")]) {
        Err(RowError::UnsupportedFileType(u)) => assert_eq!(u.file_type(), "exe"),
        other => panic!("unexpected: {other:?}"),
    }
    match document_from_rows(&doc_row(7, 2024, 2), &[]) {
        Err(RowError::EmptyDocumentFiles) => {}
        other => panic!("unexpected: {other:?}"),
    }
}

#[test]
fn documents_take_their_own_files() {
    let rows = [doc_row(1, 2024, 2), doc_row(2, 2023, 0)];
    let files = [
        file_row(2, "pdf", "path/to/c.pdf"),
        file_row(1, "pdf", "path/to/a.pdf"),
        file_row(1, "jpg", "path/to/b.jpg"),
    ];
    let docs = documents_from_rows(&rows, &files).unwrap();
    assert_eq!(docs.len(), 2);
    let first: Vec<&str> = docs[0].files().iter().map(|f| f.path()).collect();
    assert_eq!(first, ["path/to/a.pdf", "path/to/b.jpg"]);
    let second: Vec<&str> = docs[1].files().iter().map(|f| f.path()).collect();
    assert_eq!(second, ["path/to/c.pdf"]);
    assert!(documents_from_rows(&[], &[]).unwrap().is_empty());
    match documents_from_rows(&[doc_row(1, 2024, 2), doc_row(5, 2024, 2)], &files) {
        Err(RowError::EmptyDocumentFiles) => {}
        other => panic!("unexpected: {other:?}"),
    }
}

#[test]
fn list_faculties_zero_majors() {
    let fid: u128 = 0x5a5a_0001;
    let faculties = faculties_from_rows(&[faculty(fid, "専攻ゼロ学部")], &[]);

    let found = faculties.iter().find(|f| f.id().id() == fid).unwrap();
    assert_eq!(found.name(), "専攻ゼロ学部");
    assert!(found.majors().is_empty());
}

#[test]
fn list_faculties_pairs_majors_with_own_faculty() {
    let faculty_a_id: u128 = 0xa;
    let faculty_b_id: u128 = 0xb;
    let faculty_a_major_ids: Vec<u128> = vec![0xa1, 0xa2];
    let faculty_b_major_ids: Vec<u128> = vec![0xb1];
    let faculty_rows = [faculty(faculty_a_id, "テスト学部A"), faculty(faculty_b_id, "テスト学部B")];
    let major_rows = [
        major(0xa1, "テスト専攻A1", faculty_a_id),
        major(0xa2, "テスト専攻A2", faculty_a_id),
        major(0xb1, "テスト専攻B1", faculty_b_id),
    ];
    let faculties = faculties_from_rows(&faculty_rows, &major_rows);

    let faculty_a = faculties.iter().find(|f| f.id().id() == faculty_a_id).unwrap();
    assert_eq!(faculty_a.name(), "テスト学部A");
    let mut a_majors: Vec<u128> = faculty_a.majors().iter().map(|m| m.id().id()).collect();
    a_majors.sort();
    assert_eq!(a_majors, faculty_a_major_ids);
    for m in faculty_a.majors() {
        assert_eq!(m.faculty_id().id(), faculty_a_id);
    }

    let faculty_b = faculties.iter().find(|f| f.id().id() == faculty_b_id).unwrap();
    assert_eq!(faculty_b.name(), "テスト学部B");
    let mut b_majors: Vec<u128> = faculty_b.majors().iter().map(|m| m.id().id()).collect();
    b_majors.sort();
    assert_eq!(b_majors, faculty_b_major_ids);
    for m in faculty_b.majors() {
        assert_eq!(m.faculty_id().id(), faculty_b_id);
    }
}
