//! A todo and label service: entities, repositories with proved contracts,
//! and the translation of repository results into HTTP responses.

pub mod entities;
pub mod error;
pub mod store;
pub mod repository;
pub mod label_repository;
pub mod handlers;
pub mod laws;
