//! A small catalog library for musical scores.
//!
//! The crate centers on a query-construction subsystem: a builder that
//! composes atomic filter conditions into one parameterized statement, a
//! record store for catalog entries and their keyword associations, and a
//! one-line textual search language that lowers into the same builder.

pub mod catalog;
pub mod query;
pub mod search;
pub mod store;
pub mod text;
