//! Task-tracking backend: the task model, the statements that the repository
//! sends to the store, the mapping of store outcomes to domain errors, and the
//! planning of the database bootstrap.
pub mod model;
pub mod security;
pub mod web;
