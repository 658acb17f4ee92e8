//! A task-tracking service: a bearer-token check, a token issuer, the input
//! checks and error mapping of the endpoints, and an in-memory model of the
//! task table with the endpoints over it. A deployment keeps the rows in a
//! database and calls the same checks around its queries; the HTTP layer is
//! kept outside.
pub mod auth;
pub mod error;
pub mod handlers;
pub mod task;
pub mod text;
pub mod token;
