//! The request-handling core of a small service over two tables, `users` and
//! `posts`, written without I/O: what goes to the connection pool and to the
//! store, and what comes back, are plain values.

pub mod db;
pub mod errors;
pub mod handlers;
pub mod models;
pub mod response;
pub mod row;
pub mod sql;
pub mod store;
