//! Evolution reasoning: a diverge/converge reasoning graph driven by a chat
//! model, with tool definitions, reply parsers, backtracking and exports.
use vstd::prelude::*;

pub mod cli;
pub mod controller;
pub mod engine;
pub mod fixed;
pub mod export;
pub mod json;
pub mod memory;
pub mod models;
pub mod observability;
pub mod ollama;
pub mod paths;
pub mod stamp;
pub mod summarizer;
pub mod text;
pub mod tools;

verus! {

} // verus!
