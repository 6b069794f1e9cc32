pub mod catalog;
pub mod local_filesystem;
pub mod repository;
pub mod rows;
