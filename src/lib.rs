//! An in-memory collection of todo records and the request handlers that
//! translate HTTP-shaped requests into operations on it.
//!
//! The store itself is a plain value: every operation that changes it takes
//! `&mut self`, so a caller that shares one store between tasks wraps it in a
//! single mutual-exclusion lock and each operation becomes one critical
//! section.
pub mod models;
pub mod store;
pub mod handlers;
pub mod laws;
