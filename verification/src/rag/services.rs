//! Search and context services.

pub mod advanced_search;
pub mod context_engine;
pub mod file_watcher;
