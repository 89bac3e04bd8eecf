//! The choice between the files and the database.

use crate::data::migration::spec_migration_completed;
use vstd::prelude::*;

verus! {

/// A store that reads and writes through the database once the migration is
/// done, and through the files before.
#[derive(Debug, Clone, Copy)]
pub struct HybridDataStore;

impl HybridDataStore {
    /// Whether to use the database: it exists and records a completed
    /// migration. `completed_entries` is `None` where the database could not
    /// be opened or read.
    pub fn should_use_sqlite(database_exists: bool, completed_entries: Option<i64>) -> (r: bool)
        ensures
            r == spec_migration_completed(database_exists, completed_entries),
    {
        if database_exists {
            match completed_entries {
                Some(n) => n > 0,
                None => false,
            }
        } else {
            false
        }
    }
}

} // verus!
