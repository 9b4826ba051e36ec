//! Client-side data-access layer for a wide-column trade store: a predicate
//! model, a statement builder, the decisions of a paginated executor and the
//! address rewrite of a virtualised cluster topology.

// Shared pieces.
pub mod error;
pub mod ids;
pub mod text;

// Predicates and statements.
pub mod filter;
pub mod laws;
pub mod query;
pub mod query_builder;

// Execution and connection topology.
pub mod pagination;
pub mod topology;

// The trade service's records, requests and statements.
pub mod auction;
pub mod cli;
pub mod filters;
pub mod trade;
pub mod validation;
pub mod validators;
