//! Data model of the reasoning graph.
pub mod edge;
pub mod execution;
pub mod graph;
pub mod node;
