//! A read-only viewer over a machine-learning experiment metadata store.
//!
//! The heart of the crate is the provenance graph subsystem: starting from a
//! single artifact or execution, it walks the events recorded in the store,
//! collects the connected artifacts and executions into a bounded, deduplicated
//! graph, and serializes that graph as a directed-graph text description.  The
//! traversal decisions, the graph model and the renderer are verified; the
//! store lookups, the HTTP front-end and the external layout tool live outside
//! the library and feed it plain values.

pub mod artifact;
pub mod builder;
pub mod cli;
pub mod context;
pub mod dot;
pub mod event;
pub mod execution;
pub mod export;
pub mod graph;
pub mod hook;
pub mod laws;
pub mod plot;
pub mod property;
pub mod query;
pub mod store;
pub mod text;
pub mod web;
