//! Controller state: question phases, modes and errors.
pub mod gemma_controller;
