//! A small user registry: records keyed by username, with a unique e-mail
//! address and a free-form bio, and the four operations on them (fetch one,
//! list a page, create, patch) together with the rules that turn a failure
//! of the store into the error a client sees.
//!
//! - [`model`]: the records, partial updates and listing windows.
//! - [`error`]: storage failures, client-facing errors, and the table of
//!   rules that decides which error a failure is reported as.
//! - [`store`]: what the four statements mean on a table with two
//!   uniqueness constraints, and a table in memory that behaves so.
//! - [`handlers`]: the operations, and the response to each outcome of the store.
//! - [`laws`]: properties of the operations, proved over the store's model.

pub mod error;
pub mod handlers;
pub mod laws;
pub mod model;
pub mod store;
