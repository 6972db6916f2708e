//! Limen: the verified core of a graph-driven edge-inference runtime.
//!
//! The library holds the data plane of the runtime: message and batch types,
//! admission and batching policies, the single-producer single-consumer edge
//! contract and its queue implementations, graph edge descriptors, the worker
//! readiness decisions of the concurrent runtime, the typed graph builder of the
//! code generator, and the factory registries of the dynamic runtime.

pub mod types;
pub mod memory;
pub mod errors;
pub mod message;
pub mod policy;
pub mod batch;
pub mod edge;
pub mod laws;
pub mod graph;
pub mod pipeline;
pub mod codegen;
pub mod compute;
pub mod registry;
pub mod config;
