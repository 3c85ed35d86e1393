//! A quiz session: an exam read from a JSON document, one question shown at a
//! time, one recorded choice per question, and a score on submission.
//!
//! Every executable function carries a contract over mathematical models
//! (`Seq`, `nat`, and the views of the data types) that Verus proves.
//!
//! - [`choice`]: the labels `A`..`H` of the answer options.
//! - [`exam`]: exams and questions, and how selections score.
//! - [`json`]: JSON documents, read by `serde_json`.
//! - [`loader`]: which JSON documents are exams.
//! - [`session`]: the session as a state machine, and what holds of it.
//! - [`app`]: the application state that a user interface drives.
//! - [`error`]: what can go wrong while an exam is loaded.

pub mod app;
pub mod choice;
pub mod error;
pub mod exam;
pub mod json;
pub mod loader;
pub mod session;
