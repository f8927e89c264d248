//! The request handlers' decisions: what each route answers, given what the
//! database and the file system reported.
pub mod channel;
pub mod error;
pub mod health_check;
pub mod project;
pub mod release;
