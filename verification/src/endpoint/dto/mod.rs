pub mod document;
pub mod faculty;
pub mod major;
pub mod subject;
