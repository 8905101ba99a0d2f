//! Decides whether an issue is an epic and resolves the project it belongs to.

pub mod errors;
pub mod matcher;
pub mod models;
pub mod queries;
pub mod text;
