pub mod create_subject;
pub mod delete_subject;
pub mod get_documents;
pub mod get_faculties;
pub mod get_subjects;
pub mod get_zip_document;
pub mod store_document;
pub mod update_subject;
