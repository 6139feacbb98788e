//! The rules of a prepared-statement layer over an embedded SQL engine.
//!
//! The engine is reached through a C interface that only a driver can call.
//! This crate never calls it. Every operation that needs the engine takes
//! the replies the engine has given to that operation so far and answers
//! with a [`Turn`]: either the next [`Call`] the driver has to perform, or
//! the finished result. A driver runs an operation like this:
//!
//! ```text
//! let mut replies = Vec::new();
//! loop {
//!     match stmt.step(&replies) {
//!         Turn::Ask(call) => replies.push(perform(call)),
//!         Turn::Done(outcome) => break Ok(outcome),
//!         Turn::Failed(error) => break Err(error),
//!     }
//! }
//! ```
//!
//! What is asked, in which order, and what is made of each reply is decided
//! here and proved against the contracts of the functions. An operation
//! that asks leaves the statement as it was, so running it again on more
//! replies starts from the same statement.
//!
//! - [`value`] and [`double`]: the values of columns and parameters, and
//!   how they turn into the caller's types.
//! - [`engine`]: the calls, the replies and the turns.
//! - [`codes`]: the statuses and type tags of the engine.
//! - [`con`], [`stmt`], [`rows`]: the connection, the statement with its
//!   cursor, and the rows.
//! - [`binding`] and [`column`]: how a value is bound, and how columns
//!   are named and read.
//! - [`laws`]: what holds across the operations, whatever the engine
//!   replies.
//! - [`model`]: what the layer comes to when it is run against an engine
//!   that conforms.

pub mod binding;
pub mod codes;
pub mod column;
pub mod con;
pub mod double;
pub mod engine;
pub mod error;
pub mod laws;
pub mod model;
pub mod rows;
pub mod stmt;
pub mod text;
pub mod value;

pub use codes::SqliteTypes;
pub use con::SqliteCon;
pub use double::Double;
pub use engine::{Call, Plan, Reply, Turn};
pub use error::Error;
pub use rows::{ColIndex, QueryResult, Row, RowIterator, Rows};
pub use column::Reader;
pub use stmt::{Stepped, Stmt, StmtState};
pub use value::{FromValue, Value};
