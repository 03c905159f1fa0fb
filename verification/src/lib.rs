//! A statement-stream execution engine: a parsed sequence of SQL statements
//! is run one at a time against a lazily acquired database connection, and
//! the results are surfaced as a single ordered sequence of output items.
//!
//! The engine itself is a pull-based state machine: it never performs I/O.
//! A driver (the async layer around this crate) asks the machine what to do
//! next, performs the database work, and feeds the outcome back in as an
//! event. Every decision the engine takes is verified here.
pub mod binder;
pub mod engine;
pub mod error;
pub mod items;
pub mod laws;
pub mod plan;
pub mod request;
