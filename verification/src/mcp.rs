//! Computer-use tools: their data model and what is fixed about each tool.

pub mod server;
pub mod tools;
pub mod types;
