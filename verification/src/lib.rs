pub mod domain;
pub mod endpoint;
pub mod infrastructure;
pub mod text;
pub mod usecase;
pub mod web;
