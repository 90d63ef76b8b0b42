//! A persistence layer that stores a user-defined type system in a metadata
//! database and the rows of each type in a data database.
//!
//! Everything that decides what is written or read is verified here; the
//! database round trips are performed by the caller, which feeds the results
//! back into the state machines of this crate.
//!
//! - `types`: object types and the type system they are registered in.
//! - `schema`: SQL dialects and the tables the store creates.
//! - `stmt`: the statements the store sends and their parameters.
//! - `define`: the workflow that defines a type across both stores.
//! - `load`: rebuilding the type system from what the metadata store holds.
//! - `rows`: the rows of the metadata store, and reading a definition back.
//! - `store`: the store itself, and the one-statement transaction workflow.
//! - `error`: the failures of a store operation.
pub mod types;
pub mod error;
pub mod schema;
pub mod stmt;
pub mod define;
pub mod load;
pub mod rows;
pub mod store;
