//! Document retrieval: its data model and the rules that need no store.

pub mod embeddings;
pub mod enhanced;
pub mod services;
pub mod storage;
pub mod types;
