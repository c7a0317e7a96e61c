//! A bounded pool of database connections with health checks, together with
//! the time-bounded cursor that a connection hands out for large result sets.
//!
//! Everything in this crate is plain synchronous state and verified
//! transitions on it. Whatever has to wait on the backing store (a liveness
//! probe, an insert, a query) happens outside and comes in as a value: a
//! [`cozodb::connection::ProbeOutcome`], an operation's result, a list of
//! records.

pub mod time;
pub mod cozodb;
pub mod ids;
pub mod layer1;
pub mod text;
pub mod inference;
