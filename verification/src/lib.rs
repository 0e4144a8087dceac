//! A verified model of a small todo service: the todo table and its four
//! data-access operations, the router that dispatches a method and path,
//! the per-request handler state machine, and the mapping from errors to
//! HTTP responses.

pub mod db;
pub mod error;
pub mod handler;
pub mod laws;
pub mod router;
pub mod todo;
