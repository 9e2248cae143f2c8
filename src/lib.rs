//! A small CRUD service for one entity, the student: the records, the
//! statements that the data-access layer sends to the `students` table, and
//! the decisions that the HTTP handlers take on what the store answers.

pub mod student;
pub mod store;
pub mod rest;
