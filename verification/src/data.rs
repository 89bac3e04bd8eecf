//! Where chats and conversations are kept, and the move from files to the
//! database.

pub mod hybrid_store;
pub mod migration;
pub mod sqlite_store;
