//! Message and tool types of the model service's chat API.
pub mod client;
