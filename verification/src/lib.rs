//! Request handlers for a small posts-and-users REST service, without the I/O.
//!
//! Every handler of the service does the same three things: it turns its
//! request into one parameterized SQL statement, has the storage run that
//! statement, and turns the storage's answer into an HTTP response. This
//! crate holds the first and the last of the three as verified functions.
//! Running the statement, decoding JSON and serving HTTP belong to the
//! program around it.

pub mod entity;
pub mod handlers;
pub mod laws;
pub mod routes;
pub mod statement;
pub mod status;
pub mod storage;
