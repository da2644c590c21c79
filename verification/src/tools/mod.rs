//! The tools offered to the model and the results they report.
pub mod executor;
pub mod registry;
