//! Text formatting for the terminal and helpers of the HTTP interface.
pub mod gemma_repl;
pub mod repl;
pub mod server;
pub mod visual;
