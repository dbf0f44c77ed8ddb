//! Result materialization and transactional batch execution over a
//! call-level database connectivity layer.
//!
//! The driver calls themselves (connect, execute, fetch, commit) happen
//! outside this library; everything that decides or computes lives here:
//! option normalization, buffer layout, the columnar-to-row transpose,
//! statement shape dispatch, dialect introspection queries and the batch
//! transaction state machine.
pub mod error;
pub mod options;
pub mod column;
pub mod buffer;
pub mod cell;
pub mod materialize;
pub mod query;
pub mod statement;
pub mod table;
pub mod batch;
pub mod prepared;
