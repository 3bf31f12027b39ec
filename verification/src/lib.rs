//! The asynchronous mutation pipeline of a small to-do store.
//!
//! A request to create, toggle or delete an item is recorded as a pending job,
//! handed to a worker as a command message, applied, and the job is closed as
//! completed or failed. This crate holds the rules of that pipeline: the job
//! ledger, the command message, the producer's and the worker's protocols.
//! Everything that talks to a database, a queue or a socket is left to the caller,
//! which performs the actions that the protocols ask for and reports the outcome.

pub mod ident;
pub mod ledger;
pub mod model;
pub mod paging;
pub mod pipeline;
pub mod producer;
pub mod wire;
pub mod worker;
