//! A backend-agnostic relational database access layer.
//!
//! The crate models one abstract database handle over four backends
//! (MySQL, PostgreSQL, Oracle, SQLite).  It owns the decisions of that
//! layer: validating data-source configuration, planning native pool
//! construction, wrapping a rendered query into count and page queries,
//! extracting a row count from a count-query result, materializing
//! native result rows into the generic row representation, and the
//! transaction life cycle.  The asynchronous drivers that perform the
//! network I/O live outside this crate and consult it for every
//! decision.

pub mod conn;
pub mod ds;
pub mod error;
pub mod materialize;
pub mod orm;
pub mod page;
pub mod row;
pub mod sqlgen;
pub mod value;
