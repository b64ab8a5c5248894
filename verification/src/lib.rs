//! A store of materialized views for an event-sourced application, kept in sled.
//!
//! Each kind of view has a namespace of its own, and each aggregate instance
//! one record in it. A [`GenericQueryRepository`] reads the record of an
//! instance, folds a batch of events into the view that the record holds, and
//! writes the result back under the same key.
//!
//! The crate keeps apart what the store decides and what this library
//! decides. Every call into sled stands in the module [`store`]; whatever
//! comes back from it is handed on as a plain value to functions that say
//! exactly what is done with each outcome.
//!
//! # What is proved, and what is taken on trust
//!
//! Verus proves every function of this crate against its contract, with
//! three exceptions. The calls into sled are believed to return, and nothing
//! more: no contract says what the database holds. The same goes for the
//! debug rendering of a view, which only ever ends up in an error. And the
//! implementations of [`Projection`] are the caller's: each is believed to
//! compute a fixed function of its arguments, as the contracts of the trait
//! say.
//!
//! The module [`laws`] states what follows for the record under one key from
//! one update to the next.

pub mod context;
pub mod error;
pub mod laws;
pub mod projection;
pub mod queries;
pub mod store;

pub use context::{QueryContext, Record};
pub use error::{CommitError, QueryError};
pub use projection::{fold_events, Projection};
pub use queries::{ErrorHandler, GenericQueryRepository};

