pub mod app;
pub mod repository;
