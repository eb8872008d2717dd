//! Query execution and row mapping for a property-graph store.
//!
//! A statement is run by the caller against its own connection; what the
//! driver hands back is given to [`neo::call`] or [`neo::call_one`] together
//! with a mapper, which turns each row into a typed entity.

pub mod ident;
pub mod models;
pub mod row;
pub mod schema;
pub mod neo;
