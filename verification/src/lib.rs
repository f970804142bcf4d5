//! A local stand-in for an asynchronous query-execution service.
//!
//! A client submits a query, polls for its completion and then fetches the
//! results page by page. The crate holds the engine behind those three
//! operations: the store of execution records, the lifecycle that a driver
//! advances tick by tick, and the paginator that serves a table in bounded
//! pages through continuation tokens.

pub mod ident;
pub mod lifecycle;
pub mod model;
pub mod operation;
pub mod paginator;
pub mod rows;
pub mod sql;
pub mod state;
pub mod store;
pub mod text;
pub mod token;
