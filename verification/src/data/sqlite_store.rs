//! What a migration into the database brought over.

use vstd::prelude::*;

verus! {

/// The outcome of a migration: whether it succeeded, and how many records of
/// each kind were moved.
#[derive(Debug, Clone, Copy, PartialEq, Eq, Structural)]
pub struct MigrationResult {
    pub success: bool,
    pub chat_sessions_migrated: usize,
    pub chat_messages_migrated: usize,
    pub conversation_sessions_migrated: usize,
    pub conversation_messages_migrated: usize,
    pub conversation_insights_migrated: usize,
}

impl Default for MigrationResult {
    /// Nothing moved, no success yet.
    fn default() -> (r: Self)
        ensures
            !r.success,
            r.spec_total_records() == 0,
    {
        MigrationResult {
            success: false,
            chat_sessions_migrated: 0,
            chat_messages_migrated: 0,
            conversation_sessions_migrated: 0,
            conversation_messages_migrated: 0,
            conversation_insights_migrated: 0,
        }
    }
}

impl MigrationResult {
    /// Number of records moved, of all kinds together.
    pub open spec fn spec_total_records(&self) -> nat {
        (self.chat_sessions_migrated + self.chat_messages_migrated
            + self.conversation_sessions_migrated + self.conversation_messages_migrated
            + self.conversation_insights_migrated) as nat
    }

    /// Number of records moved, of all kinds together.
    pub fn total_records(&self) -> (r: usize)
        requires
            self.spec_total_records() <= usize::MAX,
        ensures
            r == self.spec_total_records(),
    {
        self.chat_sessions_migrated + self.chat_messages_migrated
            + self.conversation_sessions_migrated + self.conversation_messages_migrated
            + self.conversation_insights_migrated
    }

    /// Number of records moved, or `None` where the sum does not fit.
    pub fn checked_total_records(&self) -> (r: Option<usize>)
        ensures
            r is Some <==> self.spec_total_records() <= usize::MAX,
            r matches Some(n) ==> n == self.spec_total_records(),
    {
        let a = self.chat_sessions_migrated.checked_add(self.chat_messages_migrated)?;
        let b = a.checked_add(self.conversation_sessions_migrated)?;
        let c = b.checked_add(self.conversation_messages_migrated)?;
        c.checked_add(self.conversation_insights_migrated)
    }
}

/// Whether a database holds nothing yet: no chat session and no conversation
/// session, so that a migration is in order.
pub fn migration_needed(chat_sessions: i64, conversation_sessions: i64) -> (r: bool)
    ensures
        r == (chat_sessions == 0 && conversation_sessions == 0),
{
    chat_sessions == 0 && conversation_sessions == 0
}

} // verus!
