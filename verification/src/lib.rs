//! A dialect-agnostic structured query builder and generic repository core.
//!
//! The crate models queries as a dialect-independent intermediate
//! representation (a where-clause tree, joins, ordering, grouping and
//! pagination), renders that representation into SQL text with an ordered
//! parameter list for either positional (`$1, $2, ...`) or question-mark
//! (`?`) placeholder styles, and exposes the pure planning half of a generic
//! CRUD repository.  Identifiers are validated against each entity's declared
//! column set; values are never interpolated into SQL text.

pub mod auth;
pub mod builder;
pub mod config;
pub mod dialect;
pub mod entry;
pub mod errors;
pub mod group;
pub mod helpers;
pub mod laws;
pub mod options;
pub mod query_models;
pub mod ratelimit;
pub mod render;
pub mod repository;
pub mod sql_builder;
pub mod statements;
pub mod strutil;
pub mod users;
pub mod values;
