//! An in-memory task list: the records, the ordered store that holds them,
//! and the replies a service built on the store gives to its clients.
//!
//! The store is a plain value. A service shares one store among its requests
//! behind a lock of its own and runs one handler per request while it holds
//! the lock.
//!
//! * [`todo`]: the record and its view.
//! * [`model`]: the store as a sequence of record views, and each operation
//!   as a function on such sequences.
//! * [`laws`]: what follows for every store and every identifier.
//! * [`store`]: the store itself, proved against the model.
//! * [`errors`]: the failure of a lookup, with its message and status.
//! * [`response`]: status and body, before any encoding.
//! * [`handlers`]: one function per request.
//! * [`ident`]: where fresh identifiers come from.

pub mod errors;
pub mod handlers;
pub mod ident;
pub mod laws;
pub mod model;
pub mod response;
pub mod store;
pub mod todo;
