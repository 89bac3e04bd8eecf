//! Commands on documents.

pub mod commands;
