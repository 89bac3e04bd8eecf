//! The state of the move from files to the database, and what is reported
//! of it.

use crate::data::sqlite_store::MigrationResult;
use crate::text::{decimal, spec_decimal};
use vstd::prelude::*;
use vstd::string::StringExecFns;

verus! {

/// Where the move from files to the database stands.
#[derive(Debug, Clone, Copy, PartialEq, Eq, Structural)]
pub struct MigrationStatus {
    pub is_sqlite_enabled: bool,
    pub has_json_data: bool,
    pub needs_migration: bool,
    pub migration_completed: bool,
    pub database_exists: bool,
}

/// The answer to a request to migrate.
#[derive(Debug, Clone)]
pub struct MigrationResponse {
    pub success: bool,
    pub message: String,
    pub result: Option<MigrationResult>,
    pub error: Option<String>,
}

/// Whether the migration has been completed: the database exists and its
/// record of completed migrations, where it could be read, has an entry.
pub open spec fn spec_migration_completed(database_exists: bool, completed_entries: Option<i64>) -> bool {
    database_exists && (completed_entries matches Some(n) && n > 0)
}

/// The status, from what was found on disk. `completed_entries` is the
/// number of entries in the database's record of completed migrations, or
/// `None` where the database could not be opened or read.
pub fn check_migration_status(
    database_exists: bool,
    chat_file_exists: bool,
    conversation_file_exists: bool,
    completed_entries: Option<i64>,
) -> (r: MigrationStatus)
    ensures
        r.is_sqlite_enabled,
        r.database_exists == database_exists,
        r.has_json_data == (chat_file_exists || conversation_file_exists),
        r.migration_completed == spec_migration_completed(database_exists, completed_entries),
        r.needs_migration == (r.has_json_data && !r.migration_completed),
{
    let has_json_data = chat_file_exists || conversation_file_exists;
    let migration_completed = if database_exists {
        match completed_entries {
            Some(n) => n > 0,
            None => false,
        }
    } else {
        false
    };
    MigrationStatus {
        is_sqlite_enabled: true,
        has_json_data,
        needs_migration: has_json_data && !migration_completed,
        migration_completed,
        database_exists,
    }
}

/// The message for a migration that succeeded.
pub open spec fn spec_success_message(result: MigrationResult) -> Seq<char> {
    "Migration completed! Migrated "@ + spec_decimal(result.spec_total_records())
        + " total records: "@ + spec_decimal(result.chat_sessions_migrated as nat)
        + " chat sessions with "@ + spec_decimal(result.chat_messages_migrated as nat)
        + " messages, "@ + spec_decimal(result.conversation_sessions_migrated as nat)
        + " conversation sessions with "@ + spec_decimal(
        result.conversation_messages_migrated as nat,
    ) + " messages and "@ + spec_decimal(result.conversation_insights_migrated as nat)
        + " insights"@
}

/// The answer for a migration that succeeded.
pub fn migration_succeeded(result: MigrationResult) -> (r: MigrationResponse)
    requires
        result.spec_total_records() <= u64::MAX,
    ensures
        r.success,
        r.message@ == spec_success_message(result),
        r.result == Some(result),
        r.error is None,
{
    let total: u64 = result.chat_sessions_migrated as u64 + result.chat_messages_migrated as u64
        + result.conversation_sessions_migrated as u64 + result.conversation_messages_migrated as u64
        + result.conversation_insights_migrated as u64;
    let message = String::from_str("Migration completed! Migrated ").concat(
        decimal(total).as_str(),
    ).concat(" total records: ").concat(
        decimal(result.chat_sessions_migrated as u64).as_str(),
    ).concat(" chat sessions with ").concat(
        decimal(result.chat_messages_migrated as u64).as_str(),
    ).concat(" messages, ").concat(
        decimal(result.conversation_sessions_migrated as u64).as_str(),
    ).concat(" conversation sessions with ").concat(
        decimal(result.conversation_messages_migrated as u64).as_str(),
    ).concat(" messages and ").concat(
        decimal(result.conversation_insights_migrated as u64).as_str(),
    ).concat(" insights");
    MigrationResponse { success: true, message, result: Some(result), error: None }
}

/// The answer for a migration that failed. `during_open` says whether the
/// database could not even be opened; `cause` is what the store said.
pub fn migration_failed(during_open: bool, cause: &str) -> (r: MigrationResponse)
    ensures
        !r.success,
        r.result is None,
        r.message@ == if during_open {
            "Failed to initialize database"@
        } else {
            "Migration failed"@
        },
        r.error is Some,
        r.error->Some_0@ == if during_open {
            "Failed to initialize SQLite database: "@ + cause@
        } else {
            "Migration failed: "@ + cause@
        },
{
    if during_open {
        MigrationResponse {
            success: false,
            message: String::from_str("Failed to initialize database"),
            result: None,
            error: Some(String::from_str("Failed to initialize SQLite database: ").concat(cause)),
        }
    } else {
        MigrationResponse {
            success: false,
            message: String::from_str("Migration failed"),
            result: None,
            error: Some(String::from_str("Migration failed: ").concat(cause)),
        }
    }
}

} // verus!
