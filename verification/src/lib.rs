//! An in-process key-value store of text entries.
//!
//! * [`table`] holds the mapping itself, with the exact contract of each of
//!   its four operations: list, get, put and delete.
//! * [`laws`] states what follows for sequences of operations.
//! * [`store`] puts one table behind a reader/writer lock, for concurrent
//!   callers.
//! * [`routes`] holds the request handlers: each runs one operation on a
//!   table and builds the reply, a status and a body, that a dispatcher
//!   sends; the `serve_*` functions run a handler under the store's lock.

pub mod laws;
pub mod routes;
pub mod store;
pub mod table;
