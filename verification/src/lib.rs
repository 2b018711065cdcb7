//! A verified core for a small read-only HTTP API over a table of cats.
//!
//! The library models the data accessor (a bounded list query and a lookup
//! by id), the request validator, and the handler logic that turns query
//! outcomes into HTTP responses, together with the JSON encoding of the
//! response bodies. The surrounding process (the HTTP server, the database
//! connection pool and the queries themselves) is ordinary I/O and lives
//! outside the library; it hands plain values in and sends the computed
//! responses back out.

pub mod handlers;
pub mod json;
pub mod models;
pub mod store;
pub mod validate;
