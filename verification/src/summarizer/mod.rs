//! Extraction of node updates from the model's replies.
pub mod node_update;
pub mod parser;

pub use node_update::NodeUpdate;
pub use parser::NodeUpdateParser;
