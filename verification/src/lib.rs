//! Catalog lookup for a game library: credentials for the metadata provider,
//! the queries sent to it, and the assembly of its records into display
//! entries. The crate performs no I/O; callers send the requests it builds
//! and hand back what came in.

pub mod api;
pub mod args;
pub mod dates;
pub mod error;
pub mod handlers;
pub mod http;
pub mod igdb;
pub mod report;
pub mod text;
pub mod ui;
pub mod user;
