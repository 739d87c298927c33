//! Core of an image-generation worker node: the job and request records, the
//! translation between them, response decoding, the completion-polling state
//! machine, and the worker's two role-bound network clients.
pub mod generate;
pub mod job;
pub mod outside;
pub mod poll;
pub mod status;
pub mod worker;
