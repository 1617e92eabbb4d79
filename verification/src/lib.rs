//! Advisory generator for ClickHouse-style analytics event tables.
//!
//! From a declarative description of an event table (expected daily volume,
//! multi-tenancy, retention) the library derives a partitioning strategy, an
//! ordering key, an optional TTL expression and a set of operational
//! recommendations, and renders a `CREATE TABLE` statement together with a
//! supplementary projection statement.

pub mod ast;
pub mod builder;
pub mod cli;
pub mod errors;
pub mod heuristics;
pub mod loader;
pub mod ordering;
pub mod partitioning;
pub mod projections;
pub mod report;
pub mod schema;
pub mod text;
pub mod ttl;
pub mod workload;
pub mod yaml;
