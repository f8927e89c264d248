//! A release server for bot binaries: projects own release channels, channels
//! own versioned releases. Every request is answered by a verified decision
//! function that the HTTP layer drives: it names the database and file work
//! to do next, and finally the answer.
pub mod configuration;
pub mod digest;
pub mod paths;
pub mod routes;
pub mod startup;
pub mod text;
